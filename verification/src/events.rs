//! The two parallel tagged variants of the protocol — host-originated
//! notifications and plugin-facing events — and the rules that translate the
//! former into the latter.

use vstd::prelude::*;

verus! {

/// Host-originated signal handed to the services facade through `notify`.
/// The translator turns it into the [`BlurEvent`] (if any) that is fanned out
/// to every loaded plugin.
#[derive(Debug)]
pub enum BlurNotification {
    /// Reserved placeholder; translates to no event.
    Nothing,
    /// The player pressed the "Log in" button on entering online mode.
    LoginStart,
    /// The login attempt resolved.
    LoginEnd { success: bool },
    /// The host switched to the named screen.
    Screen { name: String },
    /// Opaque plugin-to-plugin payload relayed through the host.
    PluginStuff { id: usize, data: String },
}

/// Plugin-facing signal, delivered synchronously to every loaded plugin's
/// event sink.
#[derive(Debug)]
pub enum BlurEvent {
    /// Reserved placeholder; never produced by the translator.
    NoEvent,
    /// The player initiated a login; `username` is the saved profile name the
    /// host read at translation time.
    LoginStart { username: String },
    /// The login attempt resolved; `username` as in `LoginStart`.
    LoginEnd { username: String, success: bool },
    /// The host switched to the named screen.
    Screen { name: String },
    /// Pass-through of a `PluginStuff` notification.
    PluginData { id: usize, data: String },
    /// The rendering device became available; `dev_ptr` is its address,
    /// never null. Emitted at most once over the host's lifetime and not
    /// produced from any notification.
    Direct3DInit { dev_ptr: u64 },
}

/// Mathematical image of a [`BlurNotification`].
#[verifier::ext_equal]
pub enum NotificationModel {
    Nothing,
    LoginStart,
    LoginEnd { success: bool },
    Screen { name: Seq<char> },
    PluginStuff { id: nat, data: Seq<char> },
}

/// Mathematical image of a [`BlurEvent`].
#[verifier::ext_equal]
pub enum EventModel {
    NoEvent,
    LoginStart { username: Seq<char> },
    LoginEnd { username: Seq<char>, success: bool },
    Screen { name: Seq<char> },
    PluginData { id: nat, data: Seq<char> },
    Direct3DInit { dev_ptr: u64 },
}

impl View for BlurNotification {
    type V = NotificationModel;

    open spec fn view(&self) -> NotificationModel {
        match self {
            BlurNotification::Nothing => NotificationModel::Nothing,
            BlurNotification::LoginStart => NotificationModel::LoginStart,
            BlurNotification::LoginEnd { success } => (NotificationModel::LoginEnd {
                success: *success,
            }),
            BlurNotification::Screen { name } => (NotificationModel::Screen { name: name@ }),
            BlurNotification::PluginStuff { id, data } => (NotificationModel::PluginStuff {
                id: *id as nat,
                data: data@,
            }),
        }
    }
}

impl View for BlurEvent {
    type V = EventModel;

    open spec fn view(&self) -> EventModel {
        match self {
            BlurEvent::NoEvent => EventModel::NoEvent,
            BlurEvent::LoginStart { username } => (EventModel::LoginStart { username: username@ }),
            BlurEvent::LoginEnd { username, success } => (EventModel::LoginEnd {
                username: username@,
                success: *success,
            }),
            BlurEvent::Screen { name } => (EventModel::Screen { name: name@ }),
            BlurEvent::PluginData { id, data } => (EventModel::PluginData {
                id: *id as nat,
                data: data@,
            }),
            BlurEvent::Direct3DInit { dev_ptr } => (EventModel::Direct3DInit {
                dev_ptr: *dev_ptr,
            }),
        }
    }
}

/// The event a notification translates to, if any. Login events carry the
/// saved profile `username` read at translation time; screen names and plugin
/// payloads pass through unchanged.
pub open spec fn translated_event(n: NotificationModel, username: Seq<char>) -> Option<EventModel> {
    match n {
        NotificationModel::Nothing => None,
        NotificationModel::LoginStart => Some(EventModel::LoginStart { username }),
        NotificationModel::LoginEnd { success } => Some(
            EventModel::LoginEnd { username, success },
        ),
        NotificationModel::Screen { name } => Some(EventModel::Screen { name }),
        NotificationModel::PluginStuff { id, data } => Some(EventModel::PluginData { id, data }),
    }
}

/// The events fanned out to each loaded plugin for one notification, in
/// delivery order: zero or one, as the translation table gives it.
pub open spec fn events_of_notification(n: NotificationModel, username: Seq<char>) -> Seq<
    EventModel,
> {
    match translated_event(n, username) {
        Some(e) => seq![e],
        None => Seq::<EventModel>::empty(),
    }
}

/// Runs the translation table on one notification. `username` is the saved
/// profile name the host fills into login events.
pub fn translate(notif: &BlurNotification, username: &str) -> (ev: Option<BlurEvent>)
    ensures
        ev matches Some(e) ==> translated_event(notif@, username@) == Some(e@),
        ev is None <==> translated_event(notif@, username@) is None,
{
    match notif {
        BlurNotification::Nothing => None,
        BlurNotification::LoginStart => Some(
            BlurEvent::LoginStart { username: username.to_owned() },
        ),
        BlurNotification::LoginEnd { success } => Some(
            BlurEvent::LoginEnd { username: username.to_owned(), success: *success },
        ),
        BlurNotification::Screen { name } => Some(BlurEvent::Screen { name: name.clone() }),
        BlurNotification::PluginStuff { id, data } => Some(
            BlurEvent::PluginData { id: *id, data: data.clone() },
        ),
    }
}

impl BlurEvent {
    /// Byte-exact copy, so the host can hand the same event to several
    /// plugins.
    pub fn duplicate(&self) -> (copy: BlurEvent)
        ensures
            copy == *self,
    {
        match self {
            BlurEvent::NoEvent => BlurEvent::NoEvent,
            BlurEvent::LoginStart { username } => (BlurEvent::LoginStart {
                username: username.clone(),
            }),
            BlurEvent::LoginEnd { username, success } => (BlurEvent::LoginEnd {
                username: username.clone(),
                success: *success,
            }),
            BlurEvent::Screen { name } => (BlurEvent::Screen { name: name.clone() }),
            BlurEvent::PluginData { id, data } => (BlurEvent::PluginData {
                id: *id,
                data: data.clone(),
            }),
            BlurEvent::Direct3DInit { dev_ptr } => (BlurEvent::Direct3DInit { dev_ptr: *dev_ptr }),
        }
    }
}

} // verus!
