//! The initiator's side of the handshake as a state machine.
//!
//! The machine decides; its caller acts. Each step takes what happened last
//! and says what to do next: send the greeting, look an identifier up, or
//! report how the exchange ended.
use crate::crypto::KEY_LENGTH;
use crate::document::Resolution;
use crate::document::ResolutionView;
use crate::error::DidPlaygroundError;
use crate::interface::AuthRequest;
use crate::interface::SignedHello;
use crate::subject::SubjectView;
use vstd::prelude::*;

verus! {

/// How far a handshake has come.
#[derive(Debug)]
pub enum HandshakeState {
    /// Nothing has been sent.
    Idle,
    /// The greeting is on its way and the reply is awaited.
    AwaitingReply,
    /// The remote subject replied with this message, and the lookup of its
    /// identifier is awaited.
    AwaitingResolution(AuthRequest),
    /// The exchange is over, with this outcome.
    Done(Result<(), DidPlaygroundError>),
}

/// What happened since the last step.
#[derive(Debug)]
pub enum HandshakeEvent {
    /// The caller asks for a handshake.
    Start,
    /// The remote subject answered, with a message of its own or without.
    Reply(Option<AuthRequest>),
    /// The request could not be delivered, or no readable answer came back.
    TransportError,
    /// The lookup of the identifier that was asked for has ended.
    Resolved(Resolution),
}

/// What the caller is to do next.
#[derive(Debug)]
pub enum HandshakeAction {
    /// Send this message to the remote subject and come back with its
    /// answer.
    Send(AuthRequest),
    /// Look this identifier up and come back with what was found.
    Resolve(String),
    /// Tell the outcome of the handshake: there is nothing more to do.
    Report(Result<(), DidPlaygroundError>),
    /// The event does not belong to this state and was passed over.
    Nothing,
}

/// The model of [`HandshakeState`].
pub ghost enum HandshakeStateView {
    Idle,
    AwaitingReply,
    AwaitingResolution(SignedHello),
    Done(Result<(), DidPlaygroundError>),
}

/// The model of [`HandshakeEvent`].
pub ghost enum HandshakeEventView {
    Start,
    Reply(Option<SignedHello>),
    TransportError,
    Resolved(ResolutionView),
}

/// The model of [`HandshakeAction`].
pub ghost enum HandshakeActionView {
    Send(SignedHello),
    Resolve(Seq<char>),
    Report(Result<(), DidPlaygroundError>),
    Nothing,
}

impl View for HandshakeState {
    type V = HandshakeStateView;

    open spec fn view(&self) -> HandshakeStateView {
        match self {
            HandshakeState::Idle => HandshakeStateView::Idle,
            HandshakeState::AwaitingReply => HandshakeStateView::AwaitingReply,
            HandshakeState::AwaitingResolution(message) => HandshakeStateView::AwaitingResolution(message@),
            HandshakeState::Done(outcome) => HandshakeStateView::Done(*outcome),
        }
    }
}

impl View for HandshakeEvent {
    type V = HandshakeEventView;

    open spec fn view(&self) -> HandshakeEventView {
        match self {
            HandshakeEvent::Start => HandshakeEventView::Start,
            HandshakeEvent::Reply(Some(message)) => HandshakeEventView::Reply(Some(message@)),
            HandshakeEvent::Reply(None) => HandshakeEventView::Reply(None),
            HandshakeEvent::TransportError => HandshakeEventView::TransportError,
            HandshakeEvent::Resolved(resolution) => HandshakeEventView::Resolved(resolution@),
        }
    }
}

impl View for HandshakeAction {
    type V = HandshakeActionView;

    open spec fn view(&self) -> HandshakeActionView {
        match self {
            HandshakeAction::Send(message) => HandshakeActionView::Send(message@),
            HandshakeAction::Resolve(did) => HandshakeActionView::Resolve(did@),
            HandshakeAction::Report(outcome) => HandshakeActionView::Report(*outcome),
            HandshakeAction::Nothing => HandshakeActionView::Nothing,
        }
    }
}

impl HandshakeStateView {
    /// The state and the action that end a handshake with `outcome`.
    pub open spec fn finish(outcome: Result<(), DidPlaygroundError>) -> (
        HandshakeStateView,
        HandshakeActionView,
    ) {
        (HandshakeStateView::Done(outcome), HandshakeActionView::Report(outcome))
    }

    /// One step of the initiator `subject`.
    ///
    /// The steps come in one order: sign and send, take the reply, look the
    /// replier up, check its message. An event that is not the next in this
    /// order changes nothing.
    pub open spec fn step(self, subject: SubjectView, event: HandshakeEventView) -> (
        HandshakeStateView,
        HandshakeActionView,
    ) {
        match (self, event) {
            (HandshakeStateView::Idle, HandshakeEventView::Start) => {
                if subject.private_key.len() == KEY_LENGTH {
                    (HandshakeStateView::AwaitingReply, HandshakeActionView::Send(SignedHello::of(subject)))
                } else {
                    Self::finish(Err(DidPlaygroundError::SigningFailure))
                }
            },
            (HandshakeStateView::AwaitingReply, HandshakeEventView::TransportError) => {
                Self::finish(Err(DidPlaygroundError::TransportFailure))
            },
            (HandshakeStateView::AwaitingReply, HandshakeEventView::Reply(None)) => {
                Self::finish(Err(DidPlaygroundError::RemoteRejected))
            },
            (HandshakeStateView::AwaitingReply, HandshakeEventView::Reply(Some(message))) => {
                (
                    HandshakeStateView::AwaitingResolution(message),
                    HandshakeActionView::Resolve(message.identifier),
                )
            },
            (HandshakeStateView::AwaitingResolution(message), HandshakeEventView::Resolved(resolution)) => {
                Self::finish(message.verification(resolution))
            },
            _ => (self, HandshakeActionView::Nothing),
        }
    }

    /// The state after a run of events, each taken in its turn.
    pub open spec fn run(self, subject: SubjectView, events: Seq<HandshakeEventView>) -> HandshakeStateView
        decreases events.len(),
    {
        if events.len() == 0 {
            self
        } else {
            self.step(subject, events[0]).0.run(subject, events.subrange(1, events.len() as int))
        }
    }

    /// The handshake has ended and both subjects are authenticated.
    pub open spec fn authenticated(self) -> bool {
        self == HandshakeStateView::Done(Ok::<(), DidPlaygroundError>(()))
    }
}

/// How a whole handshake ends for the initiator, given the answer to its
/// request (`None` where the transport failed) and the lookup of the
/// replier's identifier.
pub open spec fn handshake_outcome(
    initiator: SubjectView,
    answer: Option<Option<SignedHello>>,
    resolution: ResolutionView,
) -> Result<(), DidPlaygroundError> {
    if initiator.private_key.len() != KEY_LENGTH {
        Err(DidPlaygroundError::SigningFailure)
    } else {
        match answer {
            None => Err(DidPlaygroundError::TransportFailure),
            Some(None) => Err(DidPlaygroundError::RemoteRejected),
            Some(Some(message)) => message.verification(resolution),
        }
    }
}

/// The event that an answer to the request arrives as.
pub open spec fn answer_event(answer: Option<Option<SignedHello>>) -> HandshakeEventView {
    match answer {
        None => HandshakeEventView::TransportError,
        Some(reply) => HandshakeEventView::Reply(reply),
    }
}

/// Several handshakes side by side, one state for each initiator: the
/// states after an event has come in for the handshake `to`.
pub open spec fn deliver(
    subjects: Seq<SubjectView>,
    states: Seq<HandshakeStateView>,
    to: int,
    event: HandshakeEventView,
) -> Seq<HandshakeStateView>
    recommends
        subjects.len() == states.len(),
        0 <= to < states.len(),
{
    states.update(to, states[to].step(subjects[to], event).0)
}

/// The states after the events of a schedule have come in, each for the
/// handshake it is addressed to, in the order of the schedule.
pub open spec fn deliver_all(
    subjects: Seq<SubjectView>,
    states: Seq<HandshakeStateView>,
    schedule: Seq<(int, HandshakeEventView)>,
) -> Seq<HandshakeStateView>
    decreases schedule.len(),
{
    if schedule.len() == 0 {
        states
    } else {
        deliver_all(
            subjects,
            deliver(subjects, states, schedule[0].0, schedule[0].1),
            schedule.subrange(1, schedule.len() as int),
        )
    }
}

/// The events of a schedule that are addressed to the handshake `to`, in
/// their order.
pub open spec fn events_for(schedule: Seq<(int, HandshakeEventView)>, to: int) -> Seq<
    HandshakeEventView,
>
    decreases schedule.len(),
{
    if schedule.len() == 0 {
        Seq::empty()
    } else {
        let rest = events_for(schedule.subrange(1, schedule.len() as int), to);
        if schedule[0].0 == to {
            seq![schedule[0].1] + rest
        } else {
            rest
        }
    }
}

/// Handshakes that run side by side do not touch each other: however the
/// events of several handshakes are interleaved, each handshake ends where
/// it would have ended alone, with the events addressed to it and no
/// others.
pub proof fn interleaved_handshakes_are_independent(
    subjects: Seq<SubjectView>,
    states: Seq<HandshakeStateView>,
    schedule: Seq<(int, HandshakeEventView)>,
    which: int,
)
    requires
        subjects.len() == states.len(),
        0 <= which < states.len(),
        forall|k: int| 0 <= k < schedule.len() ==> 0 <= (#[trigger] schedule[k]).0 < states.len(),
    ensures
        deliver_all(subjects, states, schedule).len() == states.len(),
        deliver_all(subjects, states, schedule)[which] == states[which].run(
            subjects[which],
            events_for(schedule, which),
        ),
    decreases schedule.len(),
{
    if schedule.len() > 0 {
        let to = schedule[0].0;
        let event = schedule[0].1;
        let rest = schedule.subrange(1, schedule.len() as int);
        let next = deliver(subjects, states, to, event);
        assert forall|k: int| 0 <= k < rest.len() implies 0 <= (#[trigger] rest[k]).0 < next.len() by {
            assert(rest[k] == schedule[k + 1]);
        }
        interleaved_handshakes_are_independent(subjects, next, rest, which);
        let mine = events_for(schedule, which);
        if to == which {
            assert(mine[0] == event);
            assert(mine.subrange(1, mine.len() as int) =~= events_for(rest, which));
        }
    }
}

/// An ended handshake stays as it ended: whatever comes after, the state and
/// its outcome are kept and nothing is asked of the caller.
pub proof fn ended_handshake_stays(
    outcome: Result<(), DidPlaygroundError>,
    subject: SubjectView,
    event: HandshakeEventView,
)
    ensures
        HandshakeStateView::Done(outcome).step(subject, event) == (
            HandshakeStateView::Done(outcome),
            HandshakeActionView::Nothing,
        ),
{
}

/// A step ends a handshake in success only from the state that waits for
/// the lookup of the replier, on the event that brings this lookup, and
/// only where the reply is verified by it. No other step leads there, so
/// no subject counts as authenticated halfway.
pub proof fn only_a_verified_reply_authenticates(
    state: HandshakeStateView,
    subject: SubjectView,
    event: HandshakeEventView,
)
    requires
        !state.authenticated(),
        state.step(subject, event).0.authenticated(),
    ensures
        state is AwaitingResolution,
        event is Resolved,
        state->AwaitingResolution_0.verification(event->Resolved_0) is Ok,
{
}

/// The steps of one handshake, taken in their order, end in the outcome
/// that [`handshake_outcome`] tells: whatever the answer and the lookup
/// are, the machine has then ended and reports exactly this.
pub proof fn handshake_run_ends_in_outcome(
    initiator: SubjectView,
    answer: Option<Option<SignedHello>>,
    resolution: ResolutionView,
)
    ensures
        HandshakeStateView::Idle.run(
            initiator,
            seq![
                HandshakeEventView::Start,
                answer_event(answer),
                HandshakeEventView::Resolved(resolution),
            ],
        ) == HandshakeStateView::Done(handshake_outcome(initiator, answer, resolution)),
{
    let events = seq![
        HandshakeEventView::Start,
        answer_event(answer),
        HandshakeEventView::Resolved(resolution),
    ];
    let rest1 = events.subrange(1, 3);
    let rest2 = rest1.subrange(1, 2);
    let rest3 = rest2.subrange(1, 1);
    let s0 = HandshakeStateView::Idle;
    let s1 = s0.step(initiator, events[0]).0;
    let s2 = s1.step(initiator, rest1[0]).0;
    let s3 = s2.step(initiator, rest2[0]).0;
    assert(rest1[0] == answer_event(answer));
    assert(rest2[0] == HandshakeEventView::Resolved(resolution));
    assert(rest3.len() == 0);
    assert(s3.run(initiator, rest3) == s3);
    assert(s2.run(initiator, rest2) == s3);
    assert(s1.run(initiator, rest1) == s3);
    assert(s0.run(initiator, events) == s3);
}

/// Mutual authentication: the initiator's handshake with a responder
/// succeeds exactly when both legs do, that is when the responder verifies
/// the initiator's message by its own lookup and can sign, and the
/// initiator verifies the responder's message by its own lookup. Where
/// the responder does not accept the initiator, the handshake ends as
/// rejected by the remote subject.
pub proof fn handshake_succeeds_when_both_legs_do(
    initiator: SubjectView,
    responder: SubjectView,
    lookup_by_responder: ResolutionView,
    lookup_by_initiator: ResolutionView,
)
    requires
        initiator.private_key.len() == KEY_LENGTH,
    ensures
        ({
            let sent = SignedHello::of(initiator);
            let reply = sent.response(responder, lookup_by_responder);
            let outcome = handshake_outcome(initiator, Some(reply), lookup_by_initiator);
            &&& outcome is Ok <==> {
                &&& sent.verification(lookup_by_responder) is Ok
                &&& responder.private_key.len() == KEY_LENGTH
                &&& SignedHello::of(responder).verification(lookup_by_initiator) is Ok
            }
            &&& reply is None ==> outcome == Err::<(), DidPlaygroundError>(
                DidPlaygroundError::RemoteRejected,
            )
            &&& reply is Some ==> outcome == SignedHello::of(responder).verification(
                lookup_by_initiator,
            )
        }),
{
}

} // verus!
