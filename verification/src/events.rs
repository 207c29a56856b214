//! Lifecycle events the orchestrator reports to its publisher.
//!
//! Delivery is fire-and-forget and is the embedding application's business;
//! the library only fixes which event is due when, and the topic name each
//! event is published under.

use vstd::prelude::*;
use crate::record::MpvProcess;

verus! {

/// A change in a managed process's existence, together with the record it
/// concerns.
pub enum LifecycleEvent {
    /// An externally running instance was reused; the record carries the
    /// reserved identifier `0` and is never registered.
    Reused(MpvProcess),
    /// A freshly spawned process was registered; the record is the one
    /// entered into the registry.
    Added(MpvProcess),
    /// A registered process was removed, by explicit termination or by its
    /// own exit; the record is the one the registry held before removal.
    Removed(MpvProcess),
}

/// The topic name a lifecycle event is published under.
pub open spec fn topic_spec(e: LifecycleEvent) -> Seq<char> {
    match e {
        LifecycleEvent::Reused(_) => "mpv-process-reused"@,
        LifecycleEvent::Added(_) => "mpv-process-added"@,
        LifecycleEvent::Removed(_) => "mpv-process-removed"@,
    }
}

impl LifecycleEvent {
    /// The topic name this event is published under.
    pub fn topic(&self) -> (r: &'static str)
        ensures
            r@ == topic_spec(*self),
    {
        match self {
            LifecycleEvent::Reused(_) => "mpv-process-reused",
            LifecycleEvent::Added(_) => "mpv-process-added",
            LifecycleEvent::Removed(_) => "mpv-process-removed",
        }
    }

    /// The record the event concerns.
    pub fn record(&self) -> (r: &MpvProcess)
        ensures
            *r == match *self {
                LifecycleEvent::Reused(p) => p,
                LifecycleEvent::Added(p) => p,
                LifecycleEvent::Removed(p) => p,
            },
    {
        match self {
            LifecycleEvent::Reused(p) => p,
            LifecycleEvent::Added(p) => p,
            LifecycleEvent::Removed(p) => p,
        }
    }
}

/// A launch report on the secondary, fire-and-forget player path, published
/// around its spawn attempt.
pub enum PlayerEvent {
    /// A spawn of the named player is about to be attempted.
    Launching(String),
    /// The named player was spawned.
    Launched(String),
    /// The spawn failed; the text carries the diagnostic.
    Error(String),
}

/// The topic name a player launch report is published under.
pub open spec fn player_topic_spec(e: PlayerEvent) -> Seq<char> {
    match e {
        PlayerEvent::Launching(_) => "player-launching"@,
        PlayerEvent::Launched(_) => "player-launched"@,
        PlayerEvent::Error(_) => "player-error"@,
    }
}

impl PlayerEvent {
    /// The topic name this report is published under.
    pub fn topic(&self) -> (r: &'static str)
        ensures
            r@ == player_topic_spec(*self),
    {
        match self {
            PlayerEvent::Launching(_) => "player-launching",
            PlayerEvent::Launched(_) => "player-launched",
            PlayerEvent::Error(_) => "player-error",
        }
    }

    /// The free-text payload of the report.
    pub fn payload(&self) -> (r: &String)
        ensures
            *r == match *self {
                PlayerEvent::Launching(s) => s,
                PlayerEvent::Launched(s) => s,
                PlayerEvent::Error(s) => s,
            },
    {
        match self {
            PlayerEvent::Launching(s) => s,
            PlayerEvent::Launched(s) => s,
            PlayerEvent::Error(s) => s,
        }
    }
}

} // verus!
