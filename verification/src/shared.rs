//! A participant shared among threads.
//!
//! [`SharedParticipant`] keeps a [`LocalParticipant`] behind a reader-writer
//! lock. An entry point that reads or writes the attributes takes the lock
//! once, does its work on the participant inside while it holds the guard,
//! and releases the lock before it returns. A signal is thus one transition,
//! run alone, and a snapshot is copied whole: no reader sees part of a write.
//!
//! The session identifier and the identity are copied out when the
//! participant is put in. They never change, so they are read, packets are
//! formed, and a full update is accepted or rejected, without taking the
//! lock: a publish neither waits for a signal nor holds one up.
//!
//! An entry point takes the shared participant by shared reference. Its
//! contract therefore cannot speak of the attributes before and after the
//! call: between two calls another thread may have written. What a call does
//! to the participant it finds inside the lock is the contract of the entry
//! point of [`LocalParticipant`] that it calls. What holds of every
//! participant, whoever wrote last, holds of what is read: a snapshot is
//! well-formed.

use vstd::prelude::*;
use crate::attributes::{
    ConnectionQuality,
    ParticipantAttributes,
    ParticipantInfo,
    ParticipantInfoView,
};
use crate::id::{ParticipantIdentity, ParticipantSid};
use crate::packet::{DataPacket, DataPacketKind, DataPacketView};
use crate::participant::{InfoUpdate, LocalParticipant};
use crate::sync::{guarded, guarded_mut, new_lock, read_lock, write_lock};

verus! {

pub struct SharedParticipant {
    sid: ParticipantSid,
    identity: ParticipantIdentity,
    state: parking_lot::RwLock<LocalParticipant>,
}

impl SharedParticipant {
    /// The session identifier of the participant that was put in.
    pub closed spec fn sid_view(&self) -> Seq<char> {
        self.sid@
    }

    /// The identity of the participant that was put in.
    pub closed spec fn identity_view(&self) -> Seq<char> {
        self.identity@
    }

    /// A full update is meant for this participant when it carries the
    /// session identifier and the identity of the participant that was put
    /// in.
    pub open spec fn accepts(&self, info: ParticipantInfoView) -> bool {
        info.sid == self.sid_view() && info.identity == self.identity_view()
    }

    /// Puts `participant` behind a lock.
    pub fn new(participant: LocalParticipant) -> (shared: Self)
        ensures
            shared.sid_view() == participant@.sid,
            shared.identity_view() == participant@.identity,
    {
        let sid = participant.sid().clone();
        let identity = participant.identity().clone();
        SharedParticipant { sid, identity, state: new_lock(participant) }
    }

    pub fn sid(&self) -> (sid: &ParticipantSid)
        ensures
            sid@ == self.sid_view(),
    {
        &self.sid
    }

    pub fn identity(&self) -> (identity: &ParticipantIdentity)
        ensures
            identity@ == self.identity_view(),
    {
        &self.identity
    }

    /// A copy of all attributes as they are while the read lock is held.
    /// Which values it holds depends on the writes that came before. It is
    /// well-formed whatever they were: no two of its tracks share an
    /// identifier.
    pub fn read_snapshot(&self) -> (snapshot: ParticipantAttributes)
        ensures
            snapshot.wf(),
    {
        let guard = read_lock(&self.state);
        guarded(&guard).read_snapshot()
    }

    /// Forms the packet that publishes `data` to every participant of the
    /// room, as [`LocalParticipant::publish_data`] does, without taking the
    /// lock.
    pub fn publish_data(&self, data: &[u8], kind: DataPacketKind) -> (packet: DataPacket)
        ensures
            packet@ == DataPacketView::broadcast(kind, self.identity_view(), data@),
    {
        DataPacket::broadcast(kind, &self.identity, data)
    }

    /// Takes a full update from the server. The update is compared with the
    /// session identifier and the identity that were copied out, without
    /// taking the lock. One that carries both is written under the write
    /// lock, and the change that comes back relates the name and the metadata
    /// found there to those of `info`; any other is rejected and writes
    /// nothing.
    pub fn update_info(&self, info: ParticipantInfo) -> (outcome: InfoUpdate)
        ensures
            outcome is Applied <==> self.accepts(info@),
            outcome matches InfoUpdate::Applied(change) ==> {
                &&& change.name_changed == (change.previous_name@ != info.name@)
                &&& change.metadata_changed == (change.previous_metadata@ != info.metadata@)
            },
    {
        if info.sid.same_as(&self.sid) && info.identity.same_as(&self.identity) {
            let mut guard = write_lock(&self.state);
            InfoUpdate::Applied(guarded_mut(&mut guard).replace_info(info))
        } else {
            InfoUpdate::Rejected
        }
    }

    /// Calls [`LocalParticipant::set_speaking`] under the write lock.
    pub fn set_speaking(&self, speaking: bool) {
        let mut guard = write_lock(&self.state);
        guarded_mut(&mut guard).set_speaking(speaking);
    }

    /// Calls [`LocalParticipant::set_audio_level`] under the write lock.
    pub fn set_audio_level(&self, audio_level: u32) {
        let mut guard = write_lock(&self.state);
        guarded_mut(&mut guard).set_audio_level(audio_level);
    }

    /// Calls [`LocalParticipant::set_connection_quality`] under the write
    /// lock.
    pub fn set_connection_quality(&self, connection_quality: ConnectionQuality) {
        let mut guard = write_lock(&self.state);
        guarded_mut(&mut guard).set_connection_quality(connection_quality);
    }
}

} // verus!
