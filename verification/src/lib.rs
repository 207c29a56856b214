//! Process lifecycle orchestration for an external media player.
//!
//! The library keeps a registry of player processes under supervision,
//! decides between reusing a running instance over a local control channel
//! and spawning a fresh one, and reconciles the registry when a supervised
//! process exits or is asked to terminate.  All decision logic lives here,
//! with contracts; the surrounding process, socket and event plumbing is
//! left to the embedding application.

pub mod control;
pub mod events;
pub mod lifecycle;
pub mod locate;
pub mod record;
pub mod registry;
pub mod vlc;

pub use record::MpvProcess;
pub use registry::Registry;
