//! The data packet that carries an application payload to the other
//! participants of a room.

use vstd::prelude::*;
use vstd::slice::slice_to_vec;
use crate::id::ParticipantIdentity;

verus! {

/// The delivery class asked of the transport.
#[derive(Clone, Copy, Debug, PartialEq, Eq, Structural)]
pub enum DataPacketKind {
    /// Delivered in order, retransmitted when lost.
    Reliable,
    /// Delivered at most once, in any order.
    Lossy,
}

/// An outbound data packet: who sends it, what it carries, how it is to be
/// delivered, and to whom. An empty list of destinations addresses every
/// participant of the room.
#[derive(Debug, PartialEq, Eq)]
pub struct DataPacket {
    pub kind: DataPacketKind,
    pub participant_identity: ParticipantIdentity,
    pub payload: Vec<u8>,
    pub destination_identities: Vec<ParticipantIdentity>,
}

pub struct DataPacketView {
    pub kind: DataPacketKind,
    pub participant_identity: Seq<char>,
    pub payload: Seq<u8>,
    pub destination_identities: Seq<Seq<char>>,
}

impl View for DataPacket {
    type V = DataPacketView;

    open spec fn view(&self) -> DataPacketView {
        DataPacketView {
            kind: self.kind,
            participant_identity: self.participant_identity@,
            payload: self.payload@,
            destination_identities: self.destination_identities@.map_values(
                |destination: ParticipantIdentity| destination@,
            ),
        }
    }
}

impl DataPacketView {
    /// The packet by which `sender` hands `payload` to every participant.
    pub open spec fn broadcast(kind: DataPacketKind, sender: Seq<char>, payload: Seq<u8>) -> DataPacketView {
        DataPacketView {
            kind,
            participant_identity: sender,
            payload,
            destination_identities: Seq::empty(),
        }
    }
}

impl DataPacket {
    /// Builds the packet by which `sender` hands `payload` to every
    /// participant. The payload is copied byte for byte, whatever its length.
    pub fn broadcast(kind: DataPacketKind, sender: &ParticipantIdentity, payload: &[u8]) -> (packet: DataPacket)
        ensures
            packet@ == DataPacketView::broadcast(kind, sender@, payload@),
    {
        let packet = DataPacket {
            kind,
            participant_identity: sender.clone(),
            payload: slice_to_vec(payload),
            destination_identities: Vec::new(),
        };
        assert(packet@.destination_identities =~= Seq::empty());
        packet
    }
}

} // verus!
