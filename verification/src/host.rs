//! The host side of the protocol: the state behind the services facade, the
//! loader's bookkeeping for each loaded plugin, and the delivery of events to
//! every plugin's inbox in load order.

use vstd::prelude::*;

use crate::api::BlurAPI;
use crate::events::BlurEvent;
use crate::events::BlurNotification;
use crate::events::EventModel;
use crate::events::NotificationModel;
use crate::events::events_of_notification;
use crate::events::translate;
use crate::fps::fps_bits_acceptable;
use crate::fps::fps_bits_valid;

verus! {

/// Loader bookkeeping for one loaded plugin: its display name, the events
/// delivered to it so far (its inbox, in delivery order), and whether its
/// teardown hook has run.
pub struct PluginSlot {
    name: String,
    inbox: Vec<BlurEvent>,
    freed: bool,
}

/// Mathematical image of one plugin slot.
#[verifier::ext_equal]
pub struct PluginSlotModel {
    pub name: Seq<char>,
    pub inbox: Seq<EventModel>,
    pub freed: bool,
}

impl View for PluginSlot {
    type V = PluginSlotModel;

    closed spec fn view(&self) -> PluginSlotModel {
        PluginSlotModel {
            name: self.name@,
            inbox: self.inbox@.map_values(|e: BlurEvent| e@),
            freed: self.freed,
        }
    }
}

/// Mathematical image of the whole host: the services state shared with every
/// plugin, the once-only latch for the device-readiness event, and the loaded
/// plugins in load order.
#[verifier::ext_equal]
pub struct HostModel {
    /// Target frame rate as the bit pattern of a double; zero means uncapped.
    pub fps_bits: u64,
    /// Address of the rendering device; zero while it is not yet initialized.
    pub render_device: u64,
    /// Base address of the host image; never zero.
    pub image_base: u64,
    /// Player identifier read from the profile store; possibly empty.
    pub username: Seq<char>,
    /// Whether the device-readiness event has already been fanned out.
    pub device_announced: bool,
    /// One slot per loaded plugin, in load order.
    pub plugins: Seq<PluginSlotModel>,
}

/// The host state right after startup: uncapped frame rate, no rendering
/// device yet, no plugins loaded, device readiness not yet announced.
pub open spec fn initial_host(username: Seq<char>, image_base: u64) -> HostModel {
    HostModel {
        fps_bits: 0,
        render_device: 0,
        image_base,
        username,
        device_announced: false,
        plugins: Seq::<PluginSlotModel>::empty(),
    }
}

/// What setting the target frame rate does: an accepted bit pattern replaces
/// the stored one, a rejected one leaves the host unchanged.
pub open spec fn spec_set_fps(h: HostModel, fps_bits: u64) -> HostModel {
    if fps_bits_valid(fps_bits) {
        HostModel { fps_bits, ..h }
    } else {
        h
    }
}

/// What delivering a batch of events does to one slot: a live plugin has them
/// appended to its inbox in order; a freed plugin receives nothing.
pub open spec fn spec_deliver(p: PluginSlotModel, events: Seq<EventModel>) -> PluginSlotModel {
    if p.freed {
        p
    } else {
        PluginSlotModel { inbox: p.inbox + events, ..p }
    }
}

/// What fanning a batch of events out does: every live plugin receives the
/// batch, in load order; nothing else changes.
pub open spec fn spec_fan_out(h: HostModel, events: Seq<EventModel>) -> HostModel {
    HostModel {
        plugins: h.plugins.map_values(|p: PluginSlotModel| spec_deliver(p, events)),
        ..h
    }
}

/// What ingesting a notification does: the translated events — with the login
/// username read from the host's stored player identifier — are fanned out to
/// every live plugin.
pub open spec fn spec_notify(h: HostModel, n: NotificationModel) -> HostModel {
    spec_fan_out(h, events_of_notification(n, h.username))
}

/// What direct event injection does: the event is delivered verbatim to every
/// live plugin, except that a device-readiness event honours the same
/// once-only latch as the device publication path, and is dropped once the
/// readiness has been announced.
pub open spec fn spec_register_event(h: HostModel, e: EventModel) -> HostModel {
    if e is Direct3DInit {
        if h.device_announced {
            h
        } else {
            HostModel { device_announced: true, ..spec_fan_out(h, seq![e]) }
        }
    } else {
        spec_fan_out(h, seq![e])
    }
}

/// What publishing the rendering device does: the stored handle is replaced,
/// and the first publication fans the device-readiness event out to every
/// live plugin and sets the latch; later publications deliver nothing.
pub open spec fn spec_publish_device(h: HostModel, handle: u64) -> HostModel {
    let moved = HostModel { render_device: handle, ..h };
    if h.device_announced {
        moved
    } else {
        HostModel {
            device_announced: true,
            ..spec_fan_out(moved, seq![EventModel::Direct3DInit { dev_ptr: handle }])
        }
    }
}

/// What loading a plugin does: a fresh slot — empty inbox, teardown not run —
/// is appended after every slot loaded before it.
pub open spec fn spec_load_plugin(h: HostModel, name: Seq<char>) -> HostModel {
    HostModel {
        plugins: h.plugins.push(
            PluginSlotModel { name, inbox: Seq::<EventModel>::empty(), freed: false },
        ),
        ..h
    }
}

/// What tearing one plugin down does: its slot is marked freed, so no further
/// event reaches it; its name and inbox stay as they were.
pub open spec fn spec_free_plugin(h: HostModel, i: int) -> HostModel {
    HostModel {
        plugins: h.plugins.update(i, PluginSlotModel { freed: true, ..h.plugins[i] }),
        ..h
    }
}

/// What host shutdown does: every plugin's teardown runs, so every slot ends
/// freed; names and inboxes stay as they were.
pub open spec fn spec_shutdown(h: HostModel) -> HostModel {
    HostModel {
        plugins: h.plugins.map_values(|p: PluginSlotModel| PluginSlotModel { freed: true, ..p }),
        ..h
    }
}

/// Fanning out an empty batch changes nothing.
pub proof fn lemma_fan_out_nothing(h: HostModel)
    ensures
        spec_fan_out(h, Seq::<EventModel>::empty()) == h,
{
    assert forall|i: int| 0 <= i < h.plugins.len() implies spec_deliver(
        h.plugins[i],
        Seq::<EventModel>::empty(),
    ) == h.plugins[i] by {
        assert(h.plugins[i].inbox + Seq::<EventModel>::empty() =~= h.plugins[i].inbox);
        assert(spec_deliver(h.plugins[i], Seq::<EventModel>::empty()) =~~= h.plugins[i]);
    }
    assert(spec_fan_out(h, Seq::<EventModel>::empty()).plugins =~= h.plugins);
    assert(spec_fan_out(h, Seq::<EventModel>::empty()) =~~= h);
}

/// The host state and the loader bookkeeping. One value of this type is
/// created at host startup, implements the services facade handed to every
/// plugin, and lives until host shutdown.
pub struct BlurHost {
    fps_bits: u64,
    d3d9dev: u64,
    exe_base: u64,
    username: String,
    device_announced: bool,
    plugins: Vec<PluginSlot>,
}

impl View for BlurHost {
    type V = HostModel;

    closed spec fn view(&self) -> HostModel {
        HostModel {
            fps_bits: self.fps_bits,
            render_device: self.d3d9dev,
            image_base: self.exe_base,
            username: self.username@,
            device_announced: self.device_announced,
            plugins: self.plugins@.map_values(|p: PluginSlot| p@),
        }
    }
}

impl BlurHost {
    /// Creates the host at startup. `username` is the player identifier read
    /// from the profile store (empty when unavailable); `image_base` is the
    /// host image's base address, which is non-null once initialization is
    /// complete and never changes.
    pub fn new(username: String, image_base: u64) -> (host: BlurHost)
        requires
            image_base != 0,
        ensures
            host@ == initial_host(username@, image_base),
    {
        let host = BlurHost {
            fps_bits: 0,
            d3d9dev: 0,
            exe_base: image_base,
            username,
            device_announced: false,
            plugins: Vec::new(),
        };
        proof {
            assert(host@.plugins =~= initial_host(host.username@, image_base).plugins);
            assert(host@ =~~= initial_host(host.username@, image_base));
        }
        host
    }

    /// Mutable access to one loaded plugin's slot.
    fn slot_mut(plugins: &mut Vec<PluginSlot>, i: usize) -> (slot: &mut PluginSlot)
        requires
            i < old(plugins).len(),
        ensures
            *slot == old(plugins)@[i as int],
            final(plugins)@ == old(plugins)@.update(i as int, *final(slot)),
    {
        &mut plugins[i]
    }

    /// Delivers one event to every live plugin's inbox, in load order.
    fn fan_out(&mut self, event: &BlurEvent)
        ensures
            final(self)@ == spec_fan_out(old(self)@, seq![event@]),
    {
        let ghost h0 = self@;
        let n = self.plugins.len();
        let mut i: usize = 0;
        while i < n
            invariant
                i <= n,
                n == self.plugins.len(),
                self@.plugins.len() == h0.plugins.len(),
                self@.fps_bits == h0.fps_bits,
                self@.render_device == h0.render_device,
                self@.image_base == h0.image_base,
                self@.username == h0.username,
                self@.device_announced == h0.device_announced,
                forall|k: int|
                    0 <= k < i ==> self@.plugins[k] == spec_deliver(h0.plugins[k], seq![event@]),
                forall|k: int| i <= k < h0.plugins.len() ==> self@.plugins[k] == h0.plugins[k],
            decreases n - i,
        {
            let ghost pre = self@;
            let ghost prev_vec = self.plugins@;
            if !self.plugins[i].freed {
                let copy = event.duplicate();
                let slot = Self::slot_mut(&mut self.plugins, i);
                slot.inbox.push(copy);
                proof {
                    assert forall|k: int|
                        0 <= k < pre.plugins.len() && k != i implies self@.plugins[k]
                        == pre.plugins[k] by {
                        assert(self.plugins@[k] == prev_vec[k]);
                        assert(pre.plugins[k] == prev_vec[k]@);
                    }
                    assert(self@.plugins[i as int].inbox =~= h0.plugins[i as int].inbox + seq![
                        event@,
                    ]);
                    assert(self@.plugins[i as int] =~~= spec_deliver(
                        h0.plugins[i as int],
                        seq![event@],
                    ));
                }
            } else {
                proof {
                    assert(self@.plugins[i as int] == h0.plugins[i as int]);
                    assert(h0.plugins[i as int].freed);
                    assert(self@.plugins[i as int] == spec_deliver(
                        h0.plugins[i as int],
                        seq![event@],
                    ));
                }
            }
            proof {
                assert forall|k: int| 0 <= k <= i implies self@.plugins[k] == spec_deliver(
                    h0.plugins[k],
                    seq![event@],
                ) by {
                    if k < i {
                        assert(self@.plugins[k] == pre.plugins[k]);
                        assert(pre.plugins[k] == spec_deliver(h0.plugins[k], seq![event@]));
                    }
                }
            }
            i += 1;
        }
        proof {
            assert(self@.plugins =~= spec_fan_out(h0, seq![event@]).plugins);
            assert(self@ =~~= spec_fan_out(h0, seq![event@]));
        }
    }

    /// Records a freshly loaded plugin under its display name: a new slot
    /// with an empty inbox is appended after every plugin loaded before it.
    pub fn load_plugin(&mut self, name: String)
        ensures
            final(self)@ == spec_load_plugin(old(self)@, name@),
    {
        let ghost nm = name@;
        self.plugins.push(PluginSlot { name, inbox: Vec::new(), freed: false });
        proof {
            assert(self@.plugins =~~= spec_load_plugin(old(self)@, nm).plugins);
            assert(self@ =~~= spec_load_plugin(old(self)@, nm));
        }
    }

    /// Runs the teardown bookkeeping for the plugin at `index` in load order:
    /// its slot is marked freed, exactly once, and no further event reaches
    /// it. Its name and delivered events stay readable for diagnostics.
    pub fn free_plugin(&mut self, index: usize)
        requires
            index < old(self)@.plugins.len(),
            !old(self)@.plugins[index as int].freed,
        ensures
            final(self)@ == spec_free_plugin(old(self)@, index as int),
    {
        let ghost h0 = self@;
        let ghost prev_vec = self.plugins@;
        let slot = Self::slot_mut(&mut self.plugins, index);
        slot.freed = true;
        proof {
            let target = spec_free_plugin(h0, index as int);
            assert forall|k: int| 0 <= k < h0.plugins.len() implies self@.plugins[k]
                == target.plugins[k] by {
                if k != index {
                    assert(self.plugins@[k] == prev_vec[k]);
                }
            }
            assert(self@.plugins =~= target.plugins);
            assert(self@ =~~= target);
        }
    }

    /// Shuts the host down: every plugin still live is torn down, in reverse
    /// load order, after which no event is delivered to anyone.
    pub fn shutdown(&mut self)
        ensures
            final(self)@ == spec_shutdown(old(self)@),
    {
        let ghost h0 = self@;
        let n = self.plugins.len();
        let mut i: usize = n;
        while i > 0
            invariant
                i <= n,
                n == self.plugins.len(),
                self@.plugins.len() == h0.plugins.len(),
                self@.fps_bits == h0.fps_bits,
                self@.render_device == h0.render_device,
                self@.image_base == h0.image_base,
                self@.username == h0.username,
                self@.device_announced == h0.device_announced,
                forall|k: int| 0 <= k < i ==> self@.plugins[k] == h0.plugins[k],
                forall|k: int|
                    i <= k < h0.plugins.len() ==> self@.plugins[k] == (PluginSlotModel {
                        freed: true,
                        ..h0.plugins[k]
                    }),
            decreases i,
        {
            i -= 1;
            let ghost pre = self@;
            let ghost prev_vec = self.plugins@;
            let slot = Self::slot_mut(&mut self.plugins, i);
            if !slot.freed {
                slot.freed = true;
            }
            proof {
                assert forall|k: int|
                    0 <= k < h0.plugins.len() && k != i implies self@.plugins[k]
                    == pre.plugins[k] by {
                    assert(self.plugins@[k] == prev_vec[k]);
                    assert(pre.plugins[k] == prev_vec[k]@);
                }
                assert(self@.plugins[i as int] =~~= (PluginSlotModel {
                    freed: true,
                    ..h0.plugins[i as int]
                }));
                assert forall|k: int|
                    i <= k < h0.plugins.len() implies self@.plugins[k] == (PluginSlotModel {
                    freed: true,
                    ..h0.plugins[k]
                }) by {
                    if k != i {
                        assert(self@.plugins[k] == pre.plugins[k]);
                    }
                }
            }
        }
        proof {
            assert(self@.plugins =~= spec_shutdown(h0).plugins);
            assert(self@ =~~= spec_shutdown(h0));
        }
    }

    /// Publishes the rendering device's address to the plugins. The stored
    /// handle becomes `handle`; the first publication fans the
    /// device-readiness event out to every live plugin and latches, so no
    /// later publication produces a second one.
    pub fn publish_render_device(&mut self, handle: u64)
        requires
            handle != 0,
        ensures
            final(self)@ == spec_publish_device(old(self)@, handle),
    {
        self.d3d9dev = handle;
        if !self.device_announced {
            self.device_announced = true;
            let ready = BlurEvent::Direct3DInit { dev_ptr: handle };
            self.fan_out(&ready);
            proof {
                assert(self@ =~~= spec_publish_device(old(self)@, handle));
            }
        } else {
            proof {
                assert(self@ =~~= spec_publish_device(old(self)@, handle));
            }
        }
    }

    /// Number of loaded plugins, freed ones included.
    pub fn plugin_count(&self) -> (count: usize)
        ensures
            count == self@.plugins.len(),
    {
        self.plugins.len()
    }

    /// Display name of the plugin at `index` in load order.
    pub fn plugin_name(&self, index: usize) -> (name: &String)
        requires
            index < self@.plugins.len(),
        ensures
            name@ == self@.plugins[index as int].name,
    {
        &self.plugins[index].name
    }

    /// Whether the teardown hook of the plugin at `index` has already run.
    pub fn plugin_freed(&self, index: usize) -> (freed: bool)
        requires
            index < self@.plugins.len(),
        ensures
            freed == self@.plugins[index as int].freed,
    {
        self.plugins[index].freed
    }

    /// How many events have been delivered to the plugin at `index` so far.
    pub fn plugin_event_count(&self, index: usize) -> (count: usize)
        requires
            index < self@.plugins.len(),
        ensures
            count == self@.plugins[index as int].inbox.len(),
    {
        self.plugins[index].inbox.len()
    }

    /// The `at`-th event delivered to the plugin at `index`, in delivery
    /// order.
    pub fn plugin_event(&self, index: usize, at: usize) -> (event: &BlurEvent)
        requires
            index < self@.plugins.len(),
            at < self@.plugins[index as int].inbox.len(),
        ensures
            event@ == self@.plugins[index as int].inbox[at as int],
    {
        &self.plugins[index].inbox[at]
    }
}

impl BlurAPI for BlurHost {
    open spec fn model(&self) -> HostModel {
        self@
    }

    fn set_fps(&mut self, fps_bits: u64) -> (accepted: bool) {
        let accepted = fps_bits_acceptable(fps_bits);
        if accepted {
            self.fps_bits = fps_bits;
        }
        proof {
            assert(self@ =~~= spec_set_fps(old(self)@, fps_bits));
        }
        accepted
    }

    fn get_fps(&self) -> (fps_bits: u64) {
        self.fps_bits
    }

    fn register_event(&mut self, event: &BlurEvent) {
        let is_device = match event {
            BlurEvent::Direct3DInit { .. } => true,
            _ => false,
        };
        if is_device {
            if !self.device_announced {
                self.device_announced = true;
                self.fan_out(event);
                proof {
                    assert(self@ =~~= spec_register_event(old(self)@, event@));
                }
            }
        } else {
            self.fan_out(event);
            proof {
                assert(self@ =~~= spec_register_event(old(self)@, event@));
            }
        }
    }

    fn notify(&mut self, notif: BlurNotification) {
        let translated = translate(&notif, self.username.as_str());
        match translated {
            Some(event) => {
                self.fan_out(&event);
                proof {
                    assert(seq![event@] =~= events_of_notification(notif@, old(self)@.username));
                    assert(self@ =~~= spec_notify(old(self)@, notif@));
                }
            },
            None => {
                proof {
                    lemma_fan_out_nothing(self@);
                    assert(events_of_notification(notif@, self@.username)
                        =~= Seq::<EventModel>::empty());
                    assert(self@ =~~= spec_notify(old(self)@, notif@));
                }
            },
        }
    }

    fn get_d3d9dev(&self) -> (handle: u64) {
        self.d3d9dev
    }

    fn get_exe_base_ptr(&self) -> (base: u64) {
        self.exe_base
    }

    fn get_saved_profile_username(&self) -> (username: String) {
        self.username.clone()
    }
}

} // verus!
