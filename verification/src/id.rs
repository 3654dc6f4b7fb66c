//! Identifiers of participants and tracks.
//!
//! Each identifier is an opaque string chosen by the server or the
//! application. Its view is the sequence of its characters, and two
//! identifiers name the same thing exactly when their views are equal.

use vstd::prelude::*;

verus! {

/// Session identifier of a participant, unique within its room.
#[derive(Debug, PartialEq, Eq)]
pub struct ParticipantSid(pub String);

/// Stable identity of a participant, chosen when it joins.
#[derive(Debug, PartialEq, Eq)]
pub struct ParticipantIdentity(pub String);

/// Identifier of a published track.
#[derive(Debug, PartialEq, Eq)]
pub struct TrackSid(pub String);

impl View for ParticipantSid {
    type V = Seq<char>;

    open spec fn view(&self) -> Seq<char> {
        self.0@
    }
}

impl View for ParticipantIdentity {
    type V = Seq<char>;

    open spec fn view(&self) -> Seq<char> {
        self.0@
    }
}

impl View for TrackSid {
    type V = Seq<char>;

    open spec fn view(&self) -> Seq<char> {
        self.0@
    }
}

impl ParticipantSid {
    pub fn new(value: String) -> (sid: Self)
        ensures
            sid@ == value@,
    {
        ParticipantSid(value)
    }

    pub fn as_str(&self) -> (text: &str)
        ensures
            text@ == self@,
    {
        self.0.as_str()
    }

    /// Whether both identifiers consist of the same characters.
    pub fn same_as(&self, other: &ParticipantSid) -> (same: bool)
        ensures
            same == (self@ == other@),
    {
        self.0 == other.0
    }
}

impl ParticipantIdentity {
    pub fn new(value: String) -> (identity: Self)
        ensures
            identity@ == value@,
    {
        ParticipantIdentity(value)
    }

    pub fn as_str(&self) -> (text: &str)
        ensures
            text@ == self@,
    {
        self.0.as_str()
    }

    /// Whether both identities consist of the same characters.
    pub fn same_as(&self, other: &ParticipantIdentity) -> (same: bool)
        ensures
            same == (self@ == other@),
    {
        self.0 == other.0
    }
}

impl TrackSid {
    pub fn new(value: String) -> (sid: Self)
        ensures
            sid@ == value@,
    {
        TrackSid(value)
    }

    pub fn as_str(&self) -> (text: &str)
        ensures
            text@ == self@,
    {
        self.0.as_str()
    }

    /// Whether both identifiers consist of the same characters.
    pub fn same_as(&self, other: &TrackSid) -> (same: bool)
        ensures
            same == (self@ == other@),
    {
        self.0 == other.0
    }
}

impl Clone for ParticipantSid {
    fn clone(&self) -> (copy: Self)
        ensures
            copy == *self,
    {
        ParticipantSid(self.0.clone())
    }
}

impl Clone for ParticipantIdentity {
    fn clone(&self) -> (copy: Self)
        ensures
            copy == *self,
    {
        ParticipantIdentity(self.0.clone())
    }
}

impl Clone for TrackSid {
    fn clone(&self) -> (copy: Self)
        ensures
            copy == *self,
    {
        TrackSid(self.0.clone())
    }
}

} // verus!
