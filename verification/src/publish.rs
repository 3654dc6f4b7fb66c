//! The course of one publish.
//!
//! Sending is the transport's work and happens outside this crate. What the
//! crate decides is written as a state machine: [`publish_step`] takes the
//! state of a publish and the event that occurred, and returns the next
//! state and the action to perform. The caller performs the action and comes
//! back with the next event.
//!
//! A publish hands its packet to the transport once. When the transport
//! reports failure the publish completes with that failure: there is no
//! second attempt.

use vstd::prelude::*;
use vstd::std_specs::convert::FromSpecImpl;
use crate::packet::{DataPacket, DataPacketView};

verus! {

/// Why the transport did not send a packet.
#[derive(Clone, Copy, Debug, PartialEq, Eq, Structural)]
pub enum TransportError {
    /// No connection has been established.
    NotConnected,
    /// The data channel is closed.
    ChannelClosed,
    /// The payload exceeds what the transport sends in one message.
    PayloadTooLarge,
}

/// The errors of this crate. It raises none of its own: a publish fails only
/// when the transport does, and carries the transport's error as it came.
#[derive(Clone, Copy, Debug, PartialEq, Eq, Structural)]
pub enum RoomError {
    Transport(TransportError),
}

impl From<TransportError> for RoomError {
    fn from(error: TransportError) -> (wrapped: RoomError) {
        RoomError::Transport(error)
    }
}

impl FromSpecImpl<TransportError> for RoomError {
    open spec fn obeys_from_spec() -> bool {
        true
    }

    open spec fn from_spec(error: TransportError) -> RoomError {
        RoomError::Transport(error)
    }
}

/// Where a publish stands.
#[derive(Clone, Copy, Debug, PartialEq, Eq, Structural)]
pub enum PublishState {
    /// Nothing has been handed to the transport.
    Idle,
    /// The packet is with the transport, which has not answered yet.
    InFlight,
    /// The transport has answered and the result has been given.
    Finished,
}

/// What happened to a publish.
#[derive(Debug, PartialEq, Eq)]
pub enum PublishEvent {
    /// The application asks for `packet` to be sent.
    Submit(DataPacket),
    /// The transport has completed the send, or failed.
    TransportCompleted(Result<(), TransportError>),
}

pub enum PublishEventView {
    Submit(DataPacketView),
    TransportCompleted(Result<(), TransportError>),
}

impl View for PublishEvent {
    type V = PublishEventView;

    open spec fn view(&self) -> PublishEventView {
        match *self {
            PublishEvent::Submit(packet) => PublishEventView::Submit(packet@),
            PublishEvent::TransportCompleted(outcome) => PublishEventView::TransportCompleted(
                outcome,
            ),
        }
    }
}

/// What the caller is to do next.
#[derive(Debug, PartialEq, Eq)]
pub enum PublishAction {
    /// Hand the packet to the transport and report how the send ended.
    Send(DataPacket),
    /// The publish is over: give the application this result.
    Complete(Result<(), RoomError>),
    /// The event does not belong to this state. Nothing is to be done.
    Ignore,
}

pub enum PublishActionView {
    Send(DataPacketView),
    Complete(Result<(), RoomError>),
    Ignore,
}

impl View for PublishAction {
    type V = PublishActionView;

    open spec fn view(&self) -> PublishActionView {
        match *self {
            PublishAction::Send(packet) => PublishActionView::Send(packet@),
            PublishAction::Complete(result) => PublishActionView::Complete(result),
            PublishAction::Ignore => PublishActionView::Ignore,
        }
    }
}

/// The result of a publish whose send ended with `outcome`: success when the
/// transport completed the send, and the transport's error, wrapped, when it
/// did not.
pub open spec fn publish_result(outcome: Result<(), TransportError>) -> Result<(), RoomError> {
    match outcome {
        Ok(()) => Ok(()),
        Err(error) => Err(RoomError::Transport(error)),
    }
}

/// The next state and the action for each state and event.
pub open spec fn publish_transition(state: PublishState, event: PublishEventView) -> (
    PublishState,
    PublishActionView,
) {
    match (state, event) {
        (PublishState::Idle, PublishEventView::Submit(packet)) => (
            PublishState::InFlight,
            PublishActionView::Send(packet),
        ),
        (PublishState::InFlight, PublishEventView::TransportCompleted(outcome)) => (
            PublishState::Finished,
            PublishActionView::Complete(publish_result(outcome)),
        ),
        _ => (state, PublishActionView::Ignore),
    }
}

/// Takes a publish one step further.
pub fn publish_step(state: PublishState, event: PublishEvent) -> (next: (PublishState, PublishAction))
    ensures
        (next.0, next.1@) == publish_transition(state, event@),
{
    match (state, event) {
        (PublishState::Idle, PublishEvent::Submit(packet)) => (
            PublishState::InFlight,
            PublishAction::Send(packet),
        ),
        (PublishState::InFlight, PublishEvent::TransportCompleted(outcome)) => {
            let result = match outcome {
                Ok(()) => Ok(()),
                Err(error) => Err(RoomError::from(error)),
            };
            (PublishState::Finished, PublishAction::Complete(result))
        },
        (state, _) => (state, PublishAction::Ignore),
    }
}

/// The state reached and the actions asked for, in order, when `events` occur
/// one after another from `state` on.
pub open spec fn publish_run(state: PublishState, events: Seq<PublishEventView>) -> (
    PublishState,
    Seq<PublishActionView>,
)
    decreases events.len(),
{
    if events.len() == 0 {
        (state, Seq::empty())
    } else {
        let (reached, actions) = publish_run(state, events.drop_last());
        let (next, action) = publish_transition(reached, events.last());
        (next, actions.push(action))
    }
}

/// How many of `actions` hand a packet to the transport.
pub open spec fn sends(actions: Seq<PublishActionView>) -> nat
    decreases actions.len(),
{
    if actions.len() == 0 {
        0
    } else if actions.last() is Send {
        sends(actions.drop_last()) + 1
    } else {
        sends(actions.drop_last())
    }
}

/// Whatever events reach a publish, it hands a packet to the transport at
/// most once: not at all while it is idle, and exactly once from then on.
pub proof fn publish_sends_at_most_once(events: Seq<PublishEventView>)
    ensures
        publish_run(PublishState::Idle, events).1.len() == events.len(),
        publish_run(PublishState::Idle, events).0 is Idle ==> sends(
            publish_run(PublishState::Idle, events).1,
        ) == 0,
        !(publish_run(PublishState::Idle, events).0 is Idle) ==> sends(
            publish_run(PublishState::Idle, events).1,
        ) == 1,
    decreases events.len(),
{
    if events.len() > 0 {
        publish_sends_at_most_once(events.drop_last());
        let (reached, actions) = publish_run(PublishState::Idle, events.drop_last());
        let (next, action) = publish_transition(reached, events.last());
        assert(actions.push(action).drop_last() =~= actions);
    }
}

/// A publish whose transport answers: the packet is sent once, the result is
/// success exactly when the transport completed the send, a failure is the
/// transport's error, and nothing that happens later makes the publish send
/// again.
pub proof fn publish_reports_the_transport_once(
    packet: DataPacketView,
    outcome: Result<(), TransportError>,
    later: Seq<PublishEventView>,
)
    ensures
        ({
            let events = seq![
                PublishEventView::Submit(packet),
                PublishEventView::TransportCompleted(outcome),
            ] + later;
            let (reached, actions) = publish_run(PublishState::Idle, events);
            &&& reached is Finished
            &&& actions.len() == 2 + later.len()
            &&& actions[0] == PublishActionView::Send(packet)
            &&& actions[1] == PublishActionView::Complete(publish_result(outcome))
            &&& (publish_result(outcome) is Ok <==> outcome is Ok)
            &&& (outcome matches Err(error) ==> publish_result(outcome) == Err::<(), RoomError>(
                RoomError::Transport(error),
            ))
            &&& forall|i: int| 2 <= i < actions.len() ==> actions[i] is Ignore
            &&& sends(actions) == 1
        }),
    decreases later.len(),
{
    let first = seq![
        PublishEventView::Submit(packet),
        PublishEventView::TransportCompleted(outcome),
    ];
    let events = first + later;
    if later.len() == 0 {
        assert(events =~= first);
        assert(first.drop_last() =~= seq![PublishEventView::Submit(packet)]);
        assert(first.drop_last().drop_last() =~= Seq::<PublishEventView>::empty());
        reveal_with_fuel(publish_run, 3);
        let (reached, actions) = publish_run(PublishState::Idle, events);
    } else {
        publish_reports_the_transport_once(packet, outcome, later.drop_last());
        assert(events.drop_last() =~= first + later.drop_last());
    }
    publish_sends_at_most_once(events);
}

} // verus!
