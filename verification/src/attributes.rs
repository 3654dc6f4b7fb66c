//! The attributes of a participant and the transitions that change them.
//!
//! [`ParticipantAttributes`] is a plain record. Each transition takes it by
//! mutable reference and replaces exactly the fields it names, so a reader
//! that holds the record sees every field as some single earlier write left
//! it. The same type serves as the snapshot handed to readers.

use vstd::prelude::*;
use crate::id::{ParticipantIdentity, ParticipantSid, TrackSid};

verus! {

/// How well the participant's connection is doing, as the server classifies it.
#[derive(Clone, Copy, Debug, PartialEq, Eq, Structural)]
pub enum ConnectionQuality {
    Excellent,
    Good,
    Poor,
    Unknown,
}

/// Descriptor of one published track.
#[derive(Debug, PartialEq, Eq)]
pub struct TrackPublication {
    pub sid: TrackSid,
    pub name: String,
    pub muted: bool,
}

pub struct TrackPublicationView {
    pub sid: Seq<char>,
    pub name: Seq<char>,
    pub muted: bool,
}

impl View for TrackPublication {
    type V = TrackPublicationView;

    open spec fn view(&self) -> TrackPublicationView {
        TrackPublicationView { sid: self.sid@, name: self.name@, muted: self.muted }
    }
}

impl Clone for TrackPublication {
    fn clone(&self) -> (copy: Self)
        ensures
            copy == *self,
    {
        TrackPublication { sid: self.sid.clone(), name: self.name.clone(), muted: self.muted }
    }
}

/// A full update of a participant as the server pushes it.
#[derive(Debug, PartialEq, Eq)]
pub struct ParticipantInfo {
    pub sid: ParticipantSid,
    pub identity: ParticipantIdentity,
    pub name: String,
    pub metadata: String,
}

pub struct ParticipantInfoView {
    pub sid: Seq<char>,
    pub identity: Seq<char>,
    pub name: Seq<char>,
    pub metadata: Seq<char>,
}

impl View for ParticipantInfo {
    type V = ParticipantInfoView;

    open spec fn view(&self) -> ParticipantInfoView {
        ParticipantInfoView {
            sid: self.sid@,
            identity: self.identity@,
            name: self.name@,
            metadata: self.metadata@,
        }
    }
}

/// What a full update replaced: the values it found, and which of them differ
/// from the values it wrote.
#[derive(Debug, PartialEq, Eq)]
pub struct InfoChange {
    pub previous_name: String,
    pub previous_metadata: String,
    pub name_changed: bool,
    pub metadata_changed: bool,
}

pub struct InfoChangeView {
    pub previous_name: Seq<char>,
    pub previous_metadata: Seq<char>,
    pub name_changed: bool,
    pub metadata_changed: bool,
}

impl View for InfoChange {
    type V = InfoChangeView;

    open spec fn view(&self) -> InfoChangeView {
        InfoChangeView {
            previous_name: self.previous_name@,
            previous_metadata: self.previous_metadata@,
            name_changed: self.name_changed,
            metadata_changed: self.metadata_changed,
        }
    }
}

/// The mutable attributes of a participant.
///
/// `audio_level` holds the bit pattern of an IEEE 754 single-precision
/// number. It is stored and returned as given: any pattern is accepted.
#[derive(Debug, PartialEq, Eq)]
pub struct ParticipantAttributes {
    pub name: String,
    pub metadata: String,
    pub speaking: bool,
    pub audio_level: u32,
    pub connection_quality: ConnectionQuality,
    pub tracks: Vec<TrackPublication>,
}

pub struct AttributesView {
    pub name: Seq<char>,
    pub metadata: Seq<char>,
    pub speaking: bool,
    pub audio_level: u32,
    pub connection_quality: ConnectionQuality,
    pub tracks: Seq<TrackPublicationView>,
}

impl View for ParticipantAttributes {
    type V = AttributesView;

    open spec fn view(&self) -> AttributesView {
        AttributesView {
            name: self.name@,
            metadata: self.metadata@,
            speaking: self.speaking,
            audio_level: self.audio_level,
            connection_quality: self.connection_quality,
            tracks: self.tracks@.map_values(|track: TrackPublication| track@),
        }
    }
}

impl AttributesView {
    /// The attributes of a participant that has just joined: not speaking,
    /// audio level zero, connection quality not yet known, no tracks.
    pub open spec fn initial(name: Seq<char>, metadata: Seq<char>) -> AttributesView {
        AttributesView {
            name,
            metadata,
            speaking: false,
            audio_level: 0,
            connection_quality: ConnectionQuality::Unknown,
            tracks: Seq::empty(),
        }
    }

    pub open spec fn with_speaking(self, speaking: bool) -> AttributesView {
        AttributesView { speaking, ..self }
    }

    pub open spec fn with_audio_level(self, audio_level: u32) -> AttributesView {
        AttributesView { audio_level, ..self }
    }

    pub open spec fn with_connection_quality(self, connection_quality: ConnectionQuality) -> AttributesView {
        AttributesView { connection_quality, ..self }
    }

    /// A full update replaces name and metadata. The session identifier and
    /// the identity that the update carries are not attributes and change
    /// nothing here.
    pub open spec fn with_info(self, info: ParticipantInfoView) -> AttributesView {
        AttributesView { name: info.name, metadata: info.metadata, ..self }
    }

    /// What replacing name and metadata by those of `info` reports.
    pub open spec fn change_by(self, info: ParticipantInfoView) -> InfoChangeView {
        InfoChangeView {
            previous_name: self.name,
            previous_metadata: self.metadata,
            name_changed: self.name != info.name,
            metadata_changed: self.metadata != info.metadata,
        }
    }

    /// The position of the first track published under `sid`, if there is one.
    pub open spec fn track_position(self, sid: Seq<char>) -> Option<int> {
        if exists|i: int| 0 <= i < self.tracks.len() && self.tracks[i].sid == sid {
            Some(
                choose|i: int|
                    0 <= i < self.tracks.len() && self.tracks[i].sid == sid && forall|j: int|
                        0 <= j < i ==> self.tracks[j].sid != sid,
            )
        } else {
            None
        }
    }

    /// No two tracks are published under the same identifier.
    pub open spec fn wf(self) -> bool {
        forall|i: int, j: int|
            0 <= i < j < self.tracks.len() ==> self.tracks[i].sid != self.tracks[j].sid
    }
}

impl ParticipantAttributes {
    /// Well-formed attributes publish each track under an identifier of its own.
    pub open spec fn wf(&self) -> bool {
        self@.wf()
    }

    pub fn new(name: String, metadata: String) -> (attributes: Self)
        ensures
            attributes@ == AttributesView::initial(name@, metadata@),
            attributes.wf(),
    {
        let attributes = ParticipantAttributes {
            name,
            metadata,
            speaking: false,
            audio_level: 0,
            connection_quality: ConnectionQuality::Unknown,
            tracks: Vec::new(),
        };
        assert(attributes@.tracks =~= Seq::empty());
        attributes
    }

    pub fn set_speaking(&mut self, speaking: bool)
        ensures
            final(self)@ == old(self)@.with_speaking(speaking),
            old(self).wf() ==> final(self).wf(),
        no_unwind
    {
        self.speaking = speaking;
    }

    /// Stores the bit pattern of the level as it is given.
    pub fn set_audio_level(&mut self, audio_level: u32)
        ensures
            final(self)@ == old(self)@.with_audio_level(audio_level),
            old(self).wf() ==> final(self).wf(),
        no_unwind
    {
        self.audio_level = audio_level;
    }

    pub fn set_connection_quality(&mut self, connection_quality: ConnectionQuality)
        ensures
            final(self)@ == old(self)@.with_connection_quality(connection_quality),
            old(self).wf() ==> final(self).wf(),
        no_unwind
    {
        self.connection_quality = connection_quality;
    }

    /// Whether the name, and whether the metadata, differ from those of
    /// `info`.
    pub(crate) fn differs_from(&self, info: &ParticipantInfo) -> (differs: (bool, bool))
        ensures
            differs.0 == (self@.name != info@.name),
            differs.1 == (self@.metadata != info@.metadata),
    {
        (!(self.name == info.name), !(self.metadata == info.metadata))
    }

    /// Writes the name and the metadata of `info` and hands back the name
    /// and the metadata that were there. Every other attribute stays as it
    /// is.
    pub(crate) fn exchange_info(&mut self, info: ParticipantInfo) -> (previous: (String, String))
        ensures
            final(self)@ == old(self)@.with_info(info@),
            previous.0@ == old(self)@.name,
            previous.1@ == old(self)@.metadata,
            old(self).wf() ==> final(self).wf(),
        no_unwind
    {
        let ParticipantInfo { sid: _, identity: _, name, metadata } = info;
        let mut name = name;
        let mut metadata = metadata;
        core::mem::swap(&mut self.name, &mut name);
        core::mem::swap(&mut self.metadata, &mut metadata);
        (name, metadata)
    }

    /// Replaces name and metadata by those of `info` and reports what was
    /// there before. Every other attribute stays as it is.
    pub fn replace_info(&mut self, info: ParticipantInfo) -> (change: InfoChange)
        ensures
            final(self)@ == old(self)@.with_info(info@),
            change@ == old(self)@.change_by(info@),
            old(self).wf() ==> final(self).wf(),
    {
        let (name_changed, metadata_changed) = self.differs_from(&info);
        let (previous_name, previous_metadata) = self.exchange_info(info);
        InfoChange { previous_name, previous_metadata, name_changed, metadata_changed }
    }

    /// The first track published under `sid`. Among well-formed attributes it
    /// is the only one.
    pub fn track(&self, sid: &TrackSid) -> (found: Option<&TrackPublication>)
        ensures
            match self@.track_position(sid@) {
                Some(i) => found is Some && *found->0 == self.tracks@[i],
                None => found is None,
            },
    {
        let mut i: usize = 0;
        while i < self.tracks.len()
            invariant
                i <= self.tracks.len(),
                forall|j: int| 0 <= j < i ==> self@.tracks[j].sid != sid@,
            decreases self.tracks.len() - i,
        {
            if self.tracks[i].sid.same_as(sid) {
                assert(self@.tracks[i as int].sid == sid@);
                return Some(&self.tracks[i]);
            }
            i += 1;
        }
        None
    }
}

impl Clone for ParticipantAttributes {
    /// The copy is a snapshot: it has the view that `self` has at the moment
    /// of the call.
    fn clone(&self) -> (copy: Self)
        ensures
            copy@ == self@,
    {
        let mut tracks: Vec<TrackPublication> = Vec::new();
        let mut i: usize = 0;
        while i < self.tracks.len()
            invariant
                i <= self.tracks.len(),
                tracks.len() == i,
                forall|j: int| 0 <= j < i ==> tracks@[j] == self.tracks@[j],
            decreases self.tracks.len() - i,
        {
            tracks.push(self.tracks[i].clone());
            i += 1;
        }
        assert(tracks@ =~= self.tracks@);
        ParticipantAttributes {
            name: self.name.clone(),
            metadata: self.metadata.clone(),
            speaking: self.speaking,
            audio_level: self.audio_level,
            connection_quality: self.connection_quality,
            tracks,
        }
    }
}

} // verus!
