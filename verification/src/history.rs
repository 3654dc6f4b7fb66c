//! Histories of signals, and what holds of every one of them.
//!
//! The signaling side changes a participant one call at a time. Where
//! several threads share a participant each call still runs alone, under the
//! write lock, and a read copies the whole record under the read lock. So
//! whatever the threads do, the participant passes through the states of one
//! sequence of signals, and a reader sees the state after some prefix of that
//! sequence. The laws below hold of every such sequence.

use vstd::prelude::*;
use crate::attributes::{AttributesView, ParticipantInfoView};
use crate::participant::{ParticipantView, Signal};

verus! {

impl Signal {
    /// The speaking flag that the signal writes, if it writes one.
    pub open spec fn speaking(self) -> Option<bool> {
        match self {
            Signal::SetSpeaking(speaking) => Some(speaking),
            _ => None,
        }
    }
}

impl ParticipantView {
    /// The participant after the signals of `history`, received in order.
    pub open spec fn receive_all(self, history: Seq<Signal>) -> ParticipantView
        decreases history.len(),
    {
        if history.len() == 0 {
            self
        } else {
            self.receive_all(history.drop_last()).receive(history.last())
        }
    }
}

/// The speaking flag written by the last signal of `history` that writes one.
pub open spec fn last_speaking(history: Seq<Signal>) -> Option<bool>
    decreases history.len(),
{
    if history.len() == 0 {
        None
    } else if history.last().speaking() is Some {
        history.last().speaking()
    } else {
        last_speaking(history.drop_last())
    }
}

/// The session identifier and the identity are never altered: after any
/// history of signals, among them full updates that carry another session
/// identifier or another identity, both are what they were at the start. The
/// tracks stay as well, so a well-formed participant stays well-formed.
pub proof fn identity_is_never_altered(start: ParticipantView, history: Seq<Signal>)
    ensures
        start.receive_all(history).sid == start.sid,
        start.receive_all(history).identity == start.identity,
        start.receive_all(history).attributes.tracks == start.attributes.tracks,
        start.wf() ==> start.receive_all(history).wf(),
    decreases history.len(),
{
    if history.len() > 0 {
        identity_is_never_altered(start, history.drop_last());
    }
}

/// A full update that names another session or another identity is applied
/// consistently: it changes nothing at all.
pub proof fn rejected_update_changes_nothing(before: ParticipantView, info: ParticipantInfoView)
    requires
        !before.accepts(info),
    ensures
        before.receive(Signal::UpdateInfo(info)) == before,
{
}

/// Replacing name and metadata and then reading: the snapshot holds exactly
/// the name and the metadata of the update, and every other attribute as it
/// was before.
pub proof fn replaced_info_is_read_back(before: AttributesView, info: ParticipantInfoView)
    ensures
        before.with_info(info) == (AttributesView {
            name: info.name,
            metadata: info.metadata,
            ..before
        }),
{
}

/// An accepted full update followed by a read: the participant's attributes
/// hold exactly the name and the metadata of the update.
pub proof fn accepted_update_is_read_back(before: ParticipantView, info: ParticipantInfoView)
    requires
        before.accepts(info),
    ensures
        before.receive(Signal::UpdateInfo(info)).attributes == (AttributesView {
            name: info.name,
            metadata: info.metadata,
            ..before.attributes
        }),
{
}

/// The last writer wins: after any history the speaking flag is the one that
/// the last `SetSpeaking` wrote, and the initial one if there was none.
/// Signals for other attributes in between do not disturb it.
pub proof fn speaking_is_last_written(start: ParticipantView, history: Seq<Signal>)
    ensures
        start.receive_all(history).attributes.speaking == match last_speaking(history) {
            Some(speaking) => speaking,
            None => start.attributes.speaking,
        },
    decreases history.len(),
{
    if history.len() > 0 {
        speaking_is_last_written(start, history.drop_last());
    }
}

/// Two writers set the speaking flag to `a` and to `b`, in any interleaving.
/// A read that comes after `reads_after` of their calls sees the participant
/// it started from with the flag of one of those calls: never another value,
/// and nothing else disturbed. Before the first call it sees the start.
pub proof fn interleaved_speaking_is_never_torn(
    start: ParticipantView,
    history: Seq<Signal>,
    a: bool,
    b: bool,
    reads_after: int,
)
    requires
        forall|i: int|
            0 <= i < history.len() ==> history[i] == Signal::SetSpeaking(a) || history[i]
                == Signal::SetSpeaking(b),
        0 <= reads_after <= history.len(),
    ensures
        reads_after == 0 ==> start.receive_all(history.take(reads_after)) == start,
        reads_after > 0 ==> {
            ||| start.receive_all(history.take(reads_after)) == start.receive(Signal::SetSpeaking(a))
            ||| start.receive_all(history.take(reads_after)) == start.receive(Signal::SetSpeaking(b))
        },
    decreases reads_after,
{
    let seen = history.take(reads_after);
    if reads_after > 0 {
        interleaved_speaking_is_never_torn(start, history, a, b, reads_after - 1);
        assert(seen.drop_last() =~= history.take(reads_after - 1));
        assert(seen.last() == history[reads_after - 1]);
    }
}

} // verus!
