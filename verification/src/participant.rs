//! The local participant: the object that stands for "me" in a room.
//!
//! A participant has an identity, fixed when it is made, and attributes,
//! which the signaling side replaces as the server reports them. Each entry
//! point of the signaling side is one transition of the participant, written
//! as [`ParticipantView::receive`]; none of them touches the session
//! identifier or the identity. Publishing reads the identity and leaves the
//! participant as it is.
//!
//! A [`LocalParticipant`] is held by one owner at a time. To share one among
//! threads, put it into a [`crate::shared::SharedParticipant`].

use vstd::prelude::*;
use crate::attributes::{
    AttributesView,
    ConnectionQuality,
    InfoChange,
    InfoChangeView,
    ParticipantAttributes,
    ParticipantInfo,
    ParticipantInfoView,
};
use crate::id::{ParticipantIdentity, ParticipantSid};
use crate::packet::{DataPacket, DataPacketKind, DataPacketView};

verus! {

/// What became of a full update pushed by the server.
#[derive(Debug, PartialEq, Eq)]
pub enum InfoUpdate {
    /// The update was written. The change tells what it replaced.
    Applied(InfoChange),
    /// The update names another session or another identity. Nothing was
    /// written.
    Rejected,
}

pub enum InfoUpdateView {
    Applied(InfoChangeView),
    Rejected,
}

impl View for InfoUpdate {
    type V = InfoUpdateView;

    open spec fn view(&self) -> InfoUpdateView {
        match *self {
            InfoUpdate::Applied(change) => InfoUpdateView::Applied(change@),
            InfoUpdate::Rejected => InfoUpdateView::Rejected,
        }
    }
}

/// One call of the signaling side.
pub enum Signal {
    UpdateInfo(ParticipantInfoView),
    SetSpeaking(bool),
    SetAudioLevel(u32),
    SetConnectionQuality(ConnectionQuality),
}

pub struct ParticipantView {
    pub sid: Seq<char>,
    pub identity: Seq<char>,
    pub attributes: AttributesView,
}

impl ParticipantView {
    /// A participant that has just joined.
    pub open spec fn joined(
        sid: Seq<char>,
        identity: Seq<char>,
        name: Seq<char>,
        metadata: Seq<char>,
    ) -> ParticipantView {
        ParticipantView { sid, identity, attributes: AttributesView::initial(name, metadata) }
    }

    /// A full update is meant for this participant when it carries the
    /// participant's own session identifier and identity.
    pub open spec fn accepts(self, info: ParticipantInfoView) -> bool {
        info.sid == self.sid && info.identity == self.identity
    }

    /// What the participant answers to a full update.
    pub open spec fn info_update(self, info: ParticipantInfoView) -> InfoUpdateView {
        if self.accepts(info) {
            InfoUpdateView::Applied(self.attributes.change_by(info))
        } else {
            InfoUpdateView::Rejected
        }
    }

    /// The participant after one call of the signaling side. An update that
    /// is not accepted leaves it as it is.
    pub open spec fn receive(self, signal: Signal) -> ParticipantView {
        let attributes = match signal {
            Signal::UpdateInfo(info) => if self.accepts(info) {
                self.attributes.with_info(info)
            } else {
                self.attributes
            },
            Signal::SetSpeaking(speaking) => self.attributes.with_speaking(speaking),
            Signal::SetAudioLevel(audio_level) => self.attributes.with_audio_level(audio_level),
            Signal::SetConnectionQuality(connection_quality) => self.attributes.with_connection_quality(
                connection_quality,
            ),
        };
        ParticipantView { attributes, ..self }
    }

    /// The packet by which the participant publishes `data`.
    pub open spec fn packet(self, data: Seq<u8>, kind: DataPacketKind) -> DataPacketView {
        DataPacketView::broadcast(kind, self.identity, data)
    }

    pub open spec fn wf(self) -> bool {
        self.attributes.wf()
    }
}

pub struct LocalParticipant {
    sid: ParticipantSid,
    identity: ParticipantIdentity,
    attributes: ParticipantAttributes,
}

impl View for LocalParticipant {
    type V = ParticipantView;

    closed spec fn view(&self) -> ParticipantView {
        ParticipantView { sid: self.sid@, identity: self.identity@, attributes: self.attributes@ }
    }
}

impl LocalParticipant {
    /// Well-formed participants publish each track under an identifier of
    /// its own.
    pub open spec fn wf(&self) -> bool {
        self@.wf()
    }

    /// Every participant is well-formed: it is made without tracks, and no
    /// entry point touches them.
    #[verifier::type_invariant]
    spec fn tracks_are_distinct(&self) -> bool {
        self.attributes@.wf()
    }

    /// A participant that has just joined under `sid` and `identity`.
    pub fn new(sid: ParticipantSid, identity: ParticipantIdentity, name: String, metadata: String) -> (participant: Self)
        ensures
            participant@ == ParticipantView::joined(sid@, identity@, name@, metadata@),
            participant.wf(),
    {
        LocalParticipant { sid, identity, attributes: ParticipantAttributes::new(name, metadata) }
    }

    pub fn sid(&self) -> (sid: &ParticipantSid)
        ensures
            sid@ == self@.sid,
    {
        &self.sid
    }

    pub fn identity(&self) -> (identity: &ParticipantIdentity)
        ensures
            identity@ == self@.identity,
    {
        &self.identity
    }

    /// The attributes as they are now.
    pub fn attributes(&self) -> (attributes: &ParticipantAttributes)
        ensures
            attributes@ == self@.attributes,
    {
        &self.attributes
    }

    /// A copy of all attributes as they are now. Later writes do not reach it.
    pub fn read_snapshot(&self) -> (snapshot: ParticipantAttributes)
        ensures
            snapshot@ == self@.attributes,
            snapshot.wf(),
    {
        proof {
            use_type_invariant(self);
        }
        self.attributes.clone()
    }

    /// Forms the packet that publishes `data` to every participant of the
    /// room: sent under this participant's identity, carrying `data` byte
    /// for byte, whatever its length. The participant is left as it is. The
    /// packet is for the transport to send;
    /// [`crate::publish::publish_step`] says what follows.
    pub fn publish_data(&self, data: &[u8], kind: DataPacketKind) -> (packet: DataPacket)
        ensures
            packet@ == self@.packet(data@, kind),
    {
        DataPacket::broadcast(kind, &self.identity, data)
    }

    /// Takes a full update from the server. An update that carries the
    /// participant's own session identifier and identity replaces name and
    /// metadata; any other is rejected and writes nothing.
    pub fn update_info(&mut self, info: ParticipantInfo) -> (outcome: InfoUpdate)
        ensures
            final(self)@ == old(self)@.receive(Signal::UpdateInfo(info@)),
            outcome@ == old(self)@.info_update(info@),
            old(self).wf() ==> final(self).wf(),
    {
        if info.sid.same_as(&self.sid) && info.identity.same_as(&self.identity) {
            InfoUpdate::Applied(self.replace_info(info))
        } else {
            InfoUpdate::Rejected
        }
    }

    /// Replaces name and metadata by those of `info` without asking whom the
    /// update names, and reports what was there before. For a caller that
    /// has compared the session identifier and the identity itself.
    pub(crate) fn replace_info(&mut self, info: ParticipantInfo) -> (change: InfoChange)
        ensures
            final(self)@ == (ParticipantView {
                attributes: old(self)@.attributes.with_info(info@),
                ..old(self)@
            }),
            change@ == old(self)@.attributes.change_by(info@),
            old(self).wf() ==> final(self).wf(),
    {
        proof {
            use_type_invariant(&*self);
        }
        let (name_changed, metadata_changed) = self.attributes.differs_from(&info);
        let (previous_name, previous_metadata) = self.attributes.exchange_info(info);
        InfoChange { previous_name, previous_metadata, name_changed, metadata_changed }
    }

    pub fn set_speaking(&mut self, speaking: bool)
        ensures
            final(self)@ == old(self)@.receive(Signal::SetSpeaking(speaking)),
            old(self).wf() ==> final(self).wf(),
    {
        proof {
            use_type_invariant(&*self);
        }
        self.attributes.set_speaking(speaking);
    }

    /// Takes the bit pattern of the level and stores it as given: no pattern
    /// is refused or changed.
    pub fn set_audio_level(&mut self, audio_level: u32)
        ensures
            final(self)@ == old(self)@.receive(Signal::SetAudioLevel(audio_level)),
            old(self).wf() ==> final(self).wf(),
    {
        proof {
            use_type_invariant(&*self);
        }
        self.attributes.set_audio_level(audio_level);
    }

    pub fn set_connection_quality(&mut self, connection_quality: ConnectionQuality)
        ensures
            final(self)@ == old(self)@.receive(Signal::SetConnectionQuality(connection_quality)),
            old(self).wf() ==> final(self).wf(),
    {
        proof {
            use_type_invariant(&*self);
        }
        self.attributes.set_connection_quality(connection_quality);
    }
}

} // verus!
