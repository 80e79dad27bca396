//! The delivery, frame-rate, and lifecycle laws of the protocol, stated over
//! the mathematical host image and proved for every host state the verified
//! operations can reach.

use vstd::prelude::*;

use crate::events::EventModel;
use crate::events::NotificationModel;
use crate::events::events_of_notification;
use crate::events::translated_event;
use crate::fps::fps_bits_below_zero;
use crate::fps::fps_bits_is_infinite;
use crate::fps::fps_bits_is_nan;
use crate::fps::fps_bits_valid;
use crate::fps::lemma_fps_valid_characterization;
use crate::host::HostModel;
use crate::host::initial_host;
use crate::host::spec_free_plugin;
use crate::host::spec_load_plugin;
use crate::host::spec_notify;
use crate::host::spec_publish_device;
use crate::host::spec_register_event;
use crate::host::spec_set_fps;
use crate::host::spec_shutdown;

verus! {

/// For one ingested notification, every live plugin receives exactly the
/// translated events, appended once to its inbox in translator order; a
/// freed plugin receives nothing; and nothing else about the host changes.
pub proof fn lemma_notify_delivers_exactly_once(h: HostModel, n: NotificationModel)
    ensures
        spec_notify(h, n).plugins.len() == h.plugins.len(),
        forall|i: int|
            0 <= i < h.plugins.len() && !h.plugins[i].freed ==> spec_notify(h, n).plugins[i].inbox
                == h.plugins[i].inbox + events_of_notification(n, h.username),
        forall|i: int|
            0 <= i < h.plugins.len() && h.plugins[i].freed ==> spec_notify(h, n).plugins[i]
                == h.plugins[i],
        forall|i: int|
            0 <= i < h.plugins.len() ==> spec_notify(h, n).plugins[i].name == h.plugins[i].name
                && spec_notify(h, n).plugins[i].freed == h.plugins[i].freed,
        spec_notify(h, n).fps_bits == h.fps_bits,
        spec_notify(h, n).render_device == h.render_device,
        spec_notify(h, n).image_base == h.image_base,
        spec_notify(h, n).username == h.username,
        spec_notify(h, n).device_announced == h.device_announced,
{
}

/// Notifications ingested in program order are delivered in that order: two
/// in a row leave, in every live inbox, first the events of the first and
/// then the events of the second.
pub proof fn lemma_notify_program_order(
    h: HostModel,
    first: NotificationModel,
    second: NotificationModel,
)
    ensures
        forall|i: int|
            0 <= i < h.plugins.len() && !h.plugins[i].freed ==> spec_notify(
                spec_notify(h, first),
                second,
            ).plugins[i].inbox == h.plugins[i].inbox + events_of_notification(first, h.username)
                + events_of_notification(second, h.username),
{
    let h1 = spec_notify(h, first);
    assert forall|i: int|
        0 <= i < h.plugins.len() && !h.plugins[i].freed implies spec_notify(
        h1,
        second,
    ).plugins[i].inbox == h.plugins[i].inbox + events_of_notification(first, h.username)
        + events_of_notification(second, h.username) by {
        assert(h1.plugins[i].inbox == h.plugins[i].inbox + events_of_notification(
            first,
            h.username,
        ));
        assert(!h1.plugins[i].freed);
        assert(h1.username == h.username);
    }
}

/// A NaN, an infinity, or a double below zero is rejected: the setter
/// answers false and the host — the stored frame rate included — is
/// unchanged.
pub proof fn lemma_set_fps_rejected(h: HostModel, fps_bits: u64)
    requires
        fps_bits_is_nan(fps_bits) || fps_bits_is_infinite(fps_bits) || fps_bits_below_zero(
            fps_bits,
        ),
    ensures
        !fps_bits_valid(fps_bits),
        spec_set_fps(h, fps_bits) == h,
{
    lemma_fps_valid_characterization(fps_bits);
}

/// Every finite non-negative double is accepted: the setter answers true and
/// the frame rate read back afterwards is exactly the value set; nothing
/// else about the host changes.
pub proof fn lemma_set_fps_accepted(h: HostModel, fps_bits: u64)
    requires
        !fps_bits_is_nan(fps_bits),
        !fps_bits_is_infinite(fps_bits),
        !fps_bits_below_zero(fps_bits),
    ensures
        fps_bits_valid(fps_bits),
        spec_set_fps(h, fps_bits).fps_bits == fps_bits,
        spec_set_fps(h, fps_bits).plugins == h.plugins,
        spec_set_fps(h, fps_bits).render_device == h.render_device,
        spec_set_fps(h, fps_bits).image_base == h.image_base,
        spec_set_fps(h, fps_bits).username == h.username,
        spec_set_fps(h, fps_bits).device_announced == h.device_announced,
{
    lemma_fps_valid_characterization(fps_bits);
}

/// Once a plugin's teardown has run, no operation delivers another event to
/// it: its slot is untouched by notification ingress, by direct injection,
/// and by device publication alike.
pub proof fn lemma_no_delivery_after_free(
    h: HostModel,
    i: int,
    n: NotificationModel,
    e: EventModel,
    handle: u64,
)
    requires
        0 <= i < h.plugins.len(),
        h.plugins[i].freed,
    ensures
        spec_notify(h, n).plugins[i] == h.plugins[i],
        spec_register_event(h, e).plugins[i] == h.plugins[i],
        spec_publish_device(h, handle).plugins[i] == h.plugins[i],
{
}

/// Number of device-readiness events in one inbox.
pub open spec fn count_device_events(events: Seq<EventModel>) -> nat
    decreases events.len(),
{
    if events.len() == 0 {
        0
    } else {
        count_device_events(events.drop_last()) + (if events.last() is Direct3DInit {
            1nat
        } else {
            0nat
        })
    }
}

/// Counting device-readiness events distributes over concatenation.
pub proof fn lemma_count_device_events_add(a: Seq<EventModel>, b: Seq<EventModel>)
    ensures
        count_device_events(a + b) == count_device_events(a) + count_device_events(b),
    decreases b.len(),
{
    if b.len() == 0 {
        assert(a + b =~= a);
    } else {
        lemma_count_device_events_add(a, b.drop_last());
        assert((a + b).drop_last() =~= a + b.drop_last());
        assert((a + b).last() == b.last());
    }
}

/// A one-event batch counts one device-readiness event exactly when it is
/// one.
pub proof fn lemma_count_device_events_single(e: EventModel)
    ensures
        count_device_events(seq![e]) == (if e is Direct3DInit {
            1nat
        } else {
            0nat
        }),
{
    assert(seq![e].drop_last() =~= Seq::<EventModel>::empty());
    assert(count_device_events(Seq::<EventModel>::empty()) == 0);
}

/// The translator never produces the device-readiness event from any
/// notification.
pub proof fn lemma_translator_never_emits_device(n: NotificationModel, username: Seq<char>)
    ensures
        count_device_events(events_of_notification(n, username)) == 0,
{
    let evs = events_of_notification(n, username);
    if evs.len() > 0 {
        assert(evs.drop_last() =~= Seq::<EventModel>::empty());
        assert(count_device_events(Seq::<EventModel>::empty()) == 0);
        assert(!(evs.last() is Direct3DInit));
    }
}

/// The once-only latch is truthful: before the device readiness is announced
/// no inbox holds a device-readiness event, and afterwards each inbox holds
/// at most one.
pub open spec fn host_wf(h: HostModel) -> bool {
    forall|i: int|
        0 <= i < h.plugins.len() ==> #[trigger] count_device_events(h.plugins[i].inbox) <= (
        if h.device_announced {
            1int
        } else {
            0int
        })
}

/// The latch invariant holds of the host as it starts up.
pub proof fn lemma_wf_initial(username: Seq<char>, image_base: u64)
    ensures
        host_wf(initial_host(username, image_base)),
{
}

/// Notification ingress preserves the latch invariant: the translator adds
/// no device-readiness event to any inbox.
pub proof fn lemma_wf_notify(h: HostModel, n: NotificationModel)
    requires
        host_wf(h),
    ensures
        host_wf(spec_notify(h, n)),
{
    let evs = events_of_notification(n, h.username);
    lemma_translator_never_emits_device(n, h.username);
    assert forall|i: int|
        0 <= i < spec_notify(h, n).plugins.len() implies #[trigger] count_device_events(
        spec_notify(h, n).plugins[i].inbox,
    ) <= (if spec_notify(h, n).device_announced {
        1int
    } else {
        0int
    }) by {
        if !h.plugins[i].freed {
            lemma_count_device_events_add(h.plugins[i].inbox, evs);
        }
    }
}

/// Direct event injection preserves the latch invariant: a device-readiness
/// event is delivered only with the latch clear, and sets it.
pub proof fn lemma_wf_register_event(h: HostModel, e: EventModel)
    requires
        host_wf(h),
    ensures
        host_wf(spec_register_event(h, e)),
{
    let h2 = spec_register_event(h, e);
    assert forall|i: int|
        0 <= i < h2.plugins.len() implies #[trigger] count_device_events(h2.plugins[i].inbox) <= (
    if h2.device_announced {
        1int
    } else {
        0int
    }) by {
        if !(e is Direct3DInit && h.device_announced) && !h.plugins[i].freed {
            lemma_count_device_events_add(h.plugins[i].inbox, seq![e]);
            lemma_count_device_events_single(e);
        }
    }
}

/// Device publication preserves the latch invariant: the readiness event
/// goes out only on the first publication, which sets the latch.
pub proof fn lemma_wf_publish_device(h: HostModel, handle: u64)
    requires
        host_wf(h),
    ensures
        host_wf(spec_publish_device(h, handle)),
{
    let h2 = spec_publish_device(h, handle);
    let ready = EventModel::Direct3DInit { dev_ptr: handle };
    assert forall|i: int|
        0 <= i < h2.plugins.len() implies #[trigger] count_device_events(h2.plugins[i].inbox) <= (
    if h2.device_announced {
        1int
    } else {
        0int
    }) by {
        if !h.device_announced && !h.plugins[i].freed {
            lemma_count_device_events_add(h.plugins[i].inbox, seq![ready]);
            lemma_count_device_events_single(ready);
        }
    }
}

/// Setting the frame rate, loading a plugin, tearing one down, and shutting
/// the host down all preserve the latch invariant: none of them adds an
/// event to any inbox.
pub proof fn lemma_wf_lifecycle(h: HostModel, fps_bits: u64, name: Seq<char>, i: int)
    requires
        host_wf(h),
        0 <= i < h.plugins.len(),
    ensures
        host_wf(spec_set_fps(h, fps_bits)),
        host_wf(spec_load_plugin(h, name)),
        host_wf(spec_free_plugin(h, i)),
        host_wf(spec_shutdown(h)),
{
    assert(count_device_events(Seq::<EventModel>::empty()) == 0);
}

/// Each plugin sees the device-readiness event at most once over the host's
/// lifetime.
pub proof fn lemma_device_ready_at_most_once(h: HostModel, i: int)
    requires
        host_wf(h),
        0 <= i < h.plugins.len(),
    ensures
        count_device_events(h.plugins[i].inbox) <= 1,
{
}

/// With zero plugins loaded, ingesting a notification is a valid operation
/// and has no effect.
pub proof fn lemma_notify_without_plugins(h: HostModel, n: NotificationModel)
    requires
        h.plugins.len() == 0,
    ensures
        spec_notify(h, n) == h,
{
    assert(spec_notify(h, n).plugins =~= h.plugins);
    assert(spec_notify(h, n) =~~= h);
}

/// A relayed plugin payload passes through the translator unchanged: its id
/// and data reach every live plugin byte-exactly.
pub proof fn lemma_plugin_payload_preserved(id: nat, data: Seq<char>, username: Seq<char>)
    ensures
        events_of_notification(NotificationModel::PluginStuff { id, data }, username) == seq![
            EventModel::PluginData { id, data },
        ],
{
}

/// The whole translation table, row by row: the placeholder produces no
/// event; login events carry exactly the username the host read from its
/// profile store at translation time; screen names and plugin payloads pass
/// through unchanged.
pub proof fn lemma_translation_table(
    username: Seq<char>,
    success: bool,
    name: Seq<char>,
    id: nat,
    data: Seq<char>,
)
    ensures
        translated_event(NotificationModel::Nothing, username) is None,
        translated_event(NotificationModel::LoginStart, username) == Some(
            EventModel::LoginStart { username },
        ),
        translated_event(NotificationModel::LoginEnd { success }, username) == Some(
            EventModel::LoginEnd { username, success },
        ),
        translated_event(NotificationModel::Screen { name }, username) == Some(
            EventModel::Screen { name },
        ),
        translated_event(NotificationModel::PluginStuff { id, data }, username) == Some(
            EventModel::PluginData { id, data },
        ),
{
}

} // verus!
