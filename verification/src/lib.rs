//! The local participant of a real-time room session.
//!
//! [`LocalParticipant`] represents "me" inside a room. The signaling side
//! pushes server-authoritative state into it, application code reads
//! consistent snapshots of that state, and an application payload is turned
//! into the addressed data packet that a transport sends.
//!
//! The crate performs no I/O. The transport is driven by the caller, which
//! performs each [`PublishAction`] and reports what happened as a
//! [`PublishEvent`].

pub mod attributes;
pub mod history;
pub mod id;
pub mod packet;
pub mod participant;
pub mod publish;
pub mod shared;
mod sync;
