//! Decisions of the content state event loop of the server.
//!
//! The server keeps one serialized copy of the content metadata and hands it
//! to every client, so that a client connection does not rebuild it. A task
//! waits for database changes and for its cancellation; on a change it
//! queries the metadata again and publishes it, at most about every
//! [`MAX_UPDATE_RATE_MILLIS`] milliseconds. Waiting, querying and publishing
//! are left to the caller; this module decides what to do next.
use vstd::prelude::*;

verus! {

/// The least time between two publications of the metadata.
pub const MAX_UPDATE_RATE_MILLIS: u64 = 200;

/// What the task learned last.
#[derive(Debug, Clone, Copy, PartialEq, Eq, Structural)]
pub enum HandlerEvent {
    /// The handler was dropped: the task is to end.
    Cancelled,
    /// The database state changed.
    StateChanged,
    /// The metadata query succeeded.
    MetadataLoaded,
    /// The metadata query failed.
    MetadataFailed,
}

/// What the task does next.
#[derive(Debug, Clone, Copy, PartialEq, Eq, Structural)]
pub enum HandlerAction {
    /// End the task.
    Stop,
    /// Query the metadata from the database.
    LoadMetadata,
    /// Publish the metadata, then sleep this many milliseconds before waiting
    /// again.
    Publish { throttle_millis: u64 },
    /// Notify the task itself of a change, so that the query is tried again,
    /// and wait again.
    Renotify,
}

/// The event that the task takes up when it wakes with a cancellation and a
/// change pending or not: a cancellation comes first.
pub open spec fn spec_select(cancel_pending: bool, change_pending: bool) -> Option<HandlerEvent> {
    if cancel_pending {
        Some(HandlerEvent::Cancelled)
    } else if change_pending {
        Some(HandlerEvent::StateChanged)
    } else {
        None
    }
}

/// The action that the task takes after the event `event`.
pub open spec fn spec_next_action(event: HandlerEvent) -> HandlerAction {
    match event {
        HandlerEvent::Cancelled => HandlerAction::Stop,
        HandlerEvent::StateChanged => HandlerAction::LoadMetadata,
        HandlerEvent::MetadataLoaded => HandlerAction::Publish {
            throttle_millis: MAX_UPDATE_RATE_MILLIS,
        },
        HandlerEvent::MetadataFailed => HandlerAction::Renotify,
    }
}

/// Chooses which pending notification the task takes up: the cancellation
/// before a change; `None` where neither is pending and the task keeps
/// waiting.
pub fn select_event(cancel_pending: bool, change_pending: bool) -> (r: Option<HandlerEvent>)
    ensures
        r == spec_select(cancel_pending, change_pending),
{
    if cancel_pending {
        Some(HandlerEvent::Cancelled)
    } else if change_pending {
        Some(HandlerEvent::StateChanged)
    } else {
        None
    }
}

/// Decides what the task does after the event `event`: a cancellation ends
/// it, a change queries the metadata, loaded metadata is published and
/// followed by a pause of [`MAX_UPDATE_RATE_MILLIS`], and a failed query
/// notifies the task again so that the query is retried.
pub fn next_action(event: HandlerEvent) -> (r: HandlerAction)
    ensures
        r == spec_next_action(event),
{
    match event {
        HandlerEvent::Cancelled => HandlerAction::Stop,
        HandlerEvent::StateChanged => HandlerAction::LoadMetadata,
        HandlerEvent::MetadataLoaded => HandlerAction::Publish {
            throttle_millis: MAX_UPDATE_RATE_MILLIS,
        },
        HandlerEvent::MetadataFailed => HandlerAction::Renotify,
    }
}

/// A pending cancellation ends the task, whether or not a change is pending
/// too; and the task ends on nothing else.
pub proof fn lemma_cancellation_first(cancel_pending: bool, change_pending: bool)
    ensures
        cancel_pending ==> (spec_select(cancel_pending, change_pending) matches Some(e)
            && spec_next_action(e) == HandlerAction::Stop),
        spec_select(cancel_pending, change_pending) matches Some(e) ==> (spec_next_action(e)
            == HandlerAction::Stop <==> cancel_pending),
{
}

/// Only loaded metadata is published, and every publication is followed by
/// the pause that limits the update rate.
pub proof fn lemma_publish_only_loaded(event: HandlerEvent)
    ensures
        spec_next_action(event) is Publish <==> event == HandlerEvent::MetadataLoaded,
        spec_next_action(event) matches HandlerAction::Publish { throttle_millis }
            ==> throttle_millis == MAX_UPDATE_RATE_MILLIS,
{
}

} // verus!
