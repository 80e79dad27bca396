//! Plugin interface for an in-process extension system: the event taxonomy,
//! the notification-to-event translator, the host services facade handed to
//! every loaded plugin, and the loader's lifecycle bookkeeping.

pub mod api;
pub mod events;
pub mod fps;
pub mod host;
pub mod laws;
